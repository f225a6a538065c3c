//! The positional frame grammar shared by every message type.
//!
//! A frame is `[tag, required..., args?, kwargs?]`. The required positions of
//! each type and their shapes are given by [`layout`]; the trailing `args` and
//! `kwargs` exist only for types that [`carries_payload`].
use crate::error::{Error, Malformation};
use crate::json::{is_args, is_args_spec, is_kwargs, is_kwargs_spec, is_map, Json};
use crate::kind::{carries_payload, holds, layout, tag, Field, MessageKind, Shape};
use vstd::prelude::*;

verus! {

/// The first fault among the required positions `i..` of `frame`.
pub open spec fn slot_fault(kind: MessageKind, frame: Seq<Json>, i: int) -> Option<Error>
    decreases layout(kind).len() - i,
{
    if 0 <= i < layout(kind).len() {
        let (field, shape) = layout(kind)[i];
        if frame.len() <= i + 1 {
            Some(Error::MissingField { kind, field })
        } else if !holds(shape, frame[i + 1]) {
            Some(Error::ShapeViolation { kind, field, shape })
        } else {
            slot_fault(kind, frame, i + 1)
        }
    } else {
        None
    }
}

/// The first fault among the positions after the required ones.
pub open spec fn trailing_fault(kind: MessageKind, frame: Seq<Json>) -> Option<Error> {
    let n = layout(kind).len() as int + 1;
    if carries_payload(kind) {
        if frame.len() > n && !is_args_spec(frame[n]) {
            Some(Error::ShapeViolation { kind, field: Field::Args, shape: Shape::ArrayOrNull })
        } else if frame.len() > n + 1 && !is_kwargs_spec(frame[n + 1]) {
            Some(Error::ShapeViolation { kind, field: Field::Kwargs, shape: Shape::DictOrNull })
        } else if frame.len() > n + 2 {
            Some(Error::Malformed(Malformation::ExtraElements))
        } else {
            None
        }
    } else if frame.len() > n {
        Some(Error::Malformed(Malformation::ExtraElements))
    } else {
        None
    }
}

/// Why `frame` is not a frame of type `kind`, reading it from the front;
/// `None` when it is one.
pub open spec fn decode_fault(kind: MessageKind, frame: Seq<Json>) -> Option<Error> {
    if frame.len() == 0 {
        Some(Error::Malformed(Malformation::NoTag))
    } else if !(frame[0] is UInt) {
        Some(Error::Malformed(Malformation::TagNotInteger))
    } else if frame[0]->UInt_0 != tag(kind) {
        Some(Error::TagMismatch { kind, expected: tag(kind), actual: frame[0]->UInt_0 })
    } else if slot_fault(kind, frame, 0) is Some {
        slot_fault(kind, frame, 0)
    } else {
        trailing_fault(kind, frame)
    }
}

/// `frame` is a well-formed frame of type `kind`, stated position by position.
pub open spec fn fits(kind: MessageKind, frame: Seq<Json>) -> bool {
    let n = layout(kind).len() as int + 1;
    &&& n <= frame.len() <= n + if carries_payload(kind) { 2int } else { 0int }
    &&& frame[0] == Json::UInt(tag(kind))
    &&& forall|i: int|
        0 <= i < layout(kind).len() ==> holds(#[trigger] layout(kind)[i].1, frame[i + 1])
    &&& frame.len() > n ==> is_args_spec(frame[n])
    &&& frame.len() > n + 1 ==> is_kwargs_spec(frame[n + 1])
}

/// The `args` read from position `i`: present only as an array.
pub open spec fn args_at(frame: Seq<Json>, i: int) -> Option<Vec<Json>> {
    if 0 <= i < frame.len() {
        match frame[i] {
            Json::Array(a) => Some(a),
            _ => None,
        }
    } else {
        None
    }
}

/// The `kwargs` read from position `i`: present only as an object.
pub open spec fn kwargs_at(frame: Seq<Json>, i: int) -> Option<Vec<(String, Json)>> {
    if 0 <= i < frame.len() {
        match frame[i] {
            Json::Object(k) => Some(k),
            _ => None,
        }
    } else {
        None
    }
}

/// The trailing positions `t` written for `args` and `kwargs`: nothing when
/// both are absent, `args` alone when only it is present, and both when
/// `kwargs` is present, with an empty array standing for absent `args`.
pub open spec fn payload_encoded(
    args: Option<Vec<Json>>,
    kwargs: Option<Vec<(String, Json)>>,
    t: Seq<Json>,
) -> bool {
    match kwargs {
        None => match args {
            None => t.len() == 0,
            Some(a) => t == seq![Json::Array(a)],
        },
        Some(k) => {
            &&& t.len() == 2
            &&& t[1] == Json::Object(k)
            &&& match args {
                Some(a) => t[0] == Json::Array(a),
                None => t[0] is Array && t[0]->Array_0@.len() == 0,
            }
        },
    }
}

/// `w` is the frame of a message of type `kind` whose required values are
/// `fields` and whose trailing values are `args` and `kwargs`.
pub open spec fn encoded(
    kind: MessageKind,
    fields: Seq<Json>,
    args: Option<Vec<Json>>,
    kwargs: Option<Vec<(String, Json)>>,
    w: Seq<Json>,
) -> bool {
    let n = fields.len() as int + 1;
    &&& n <= w.len()
    &&& w[0] == Json::UInt(tag(kind))
    &&& w.subrange(1, n) == fields
    &&& payload_encoded(args, kwargs, w.subrange(n, w.len() as int))
}

/// Required values that a message of type `kind` may hold.
pub open spec fn conforms(
    kind: MessageKind,
    fields: Seq<Json>,
    args: Option<Vec<Json>>,
    kwargs: Option<Vec<(String, Json)>>,
) -> bool {
    &&& fields.len() == layout(kind).len()
    &&& forall|i: int| 0 <= i < fields.len() ==> holds(#[trigger] layout(kind)[i].1, fields[i])
    &&& carries_payload(kind) || (args is None && kwargs is None)
}

/// The required positions of `kind`, in wire order.
pub fn layout_of(kind: MessageKind) -> (r: Vec<(Field, Shape)>)
    ensures
        r@ == layout(kind),
{
    match kind {
        MessageKind::Hello => vec![(Field::Realm, Shape::Text), (Field::Details, Shape::Dict)],
        MessageKind::Welcome => vec![
            (Field::Session, Shape::Integer),
            (Field::Details, Shape::Dict),
        ],
        MessageKind::Abort => vec![(Field::Details, Shape::Dict), (Field::Reason, Shape::Text)],
        MessageKind::Challenge => vec![
            (Field::AuthMethod, Shape::Text),
            (Field::Details, Shape::Dict),
        ],
        MessageKind::Authenticate => vec![
            (Field::Signature, Shape::Text),
            (Field::Details, Shape::Dict),
        ],
        MessageKind::Goodbye => vec![(Field::Details, Shape::Dict), (Field::Reason, Shape::Text)],
        MessageKind::Error => vec![
            (Field::RequestType, Shape::RequestType),
            (Field::RequestId, Shape::Integer),
            (Field::Details, Shape::Dict),
            (Field::ErrorUri, Shape::Text),
        ],
        MessageKind::Publish => vec![
            (Field::RequestId, Shape::Integer),
            (Field::Options, Shape::Dict),
            (Field::Topic, Shape::Text),
        ],
        MessageKind::Published => vec![
            (Field::RequestId, Shape::Integer),
            (Field::Publication, Shape::Integer),
        ],
        MessageKind::Subscribe => vec![
            (Field::RequestId, Shape::Integer),
            (Field::Options, Shape::Dict),
            (Field::Topic, Shape::Text),
        ],
        MessageKind::Subscribed => vec![
            (Field::RequestId, Shape::Integer),
            (Field::Subscription, Shape::Integer),
        ],
        MessageKind::Unsubscribe => vec![
            (Field::RequestId, Shape::Integer),
            (Field::Subscription, Shape::Integer),
        ],
        MessageKind::Unsubscribed => vec![(Field::RequestId, Shape::Integer)],
        MessageKind::Event => vec![
            (Field::Subscription, Shape::Integer),
            (Field::Publication, Shape::Integer),
            (Field::Details, Shape::Dict),
        ],
        MessageKind::Call => vec![
            (Field::RequestId, Shape::Integer),
            (Field::Options, Shape::Dict),
            (Field::Procedure, Shape::Text),
        ],
        MessageKind::Cancel => vec![
            (Field::RequestId, Shape::Integer),
            (Field::Options, Shape::Dict),
        ],
        MessageKind::Result => vec![
            (Field::RequestId, Shape::Integer),
            (Field::Details, Shape::Dict),
        ],
        MessageKind::Register => vec![
            (Field::RequestId, Shape::Integer),
            (Field::Options, Shape::Dict),
            (Field::Procedure, Shape::Text),
        ],
        MessageKind::Registered => vec![
            (Field::RequestId, Shape::Integer),
            (Field::Registration, Shape::Integer),
        ],
        MessageKind::Unregister => vec![
            (Field::RequestId, Shape::Integer),
            (Field::Registration, Shape::Integer),
        ],
        MessageKind::Unregistered => vec![(Field::RequestId, Shape::Integer)],
        MessageKind::Invocation => vec![
            (Field::RequestId, Shape::Integer),
            (Field::Registration, Shape::Integer),
            (Field::Details, Shape::Dict),
        ],
        MessageKind::Interrupt => vec![
            (Field::RequestId, Shape::Integer),
            (Field::Options, Shape::Dict),
        ],
        MessageKind::Yield => vec![
            (Field::RequestId, Shape::Integer),
            (Field::Options, Shape::Dict),
        ],
    }
}

/// Whether `v` has the shape `shape`.
pub fn has_shape(shape: Shape, v: &Json) -> (r: bool)
    ensures
        r == holds(shape, *v),
{
    match shape {
        Shape::Integer => matches!(v, Json::UInt(_)),
        Shape::Text => matches!(v, Json::Str(_)),
        Shape::Dict => is_map(v),
        Shape::RequestType => match v {
            Json::UInt(t) => match MessageKind::from_tag(*t) {
                Some(k) => k.is_request(),
                None => false,
            },
            _ => false,
        },
        Shape::ArrayOrNull => is_args(v),
        Shape::DictOrNull => is_kwargs(v),
    }
}

/// Checks that `frame` is a frame of type `kind`, and reports the first fault
/// otherwise.
pub fn check_frame(kind: MessageKind, frame: &Vec<Json>) -> (r: Result<(), Error>)
    ensures
        r == match decode_fault(kind, frame@) {
            Some(e) => Err(e),
            None => Ok(()),
        },
        r is Ok ==> fits(kind, frame@),
{
    if frame.len() == 0 {
        return Err(Error::Malformed(Malformation::NoTag));
    }
    let actual = match &frame[0] {
        Json::UInt(t) => *t,
        _ => {
            return Err(Error::Malformed(Malformation::TagNotInteger));
        },
    };
    let expected = kind.tag();
    if actual != expected {
        return Err(Error::TagMismatch { kind, expected, actual });
    }
    let slots = layout_of(kind);
    let mut i: usize = 0;
    while i < slots.len()
        invariant
            0 <= i <= slots@.len(),
            slots@ == layout(kind),
            frame@.len() > i,
            frame@[0] == Json::UInt(tag(kind)),
            slot_fault(kind, frame@, 0) == slot_fault(kind, frame@, i as int),
            forall|j: int| 0 <= j < i ==> holds(#[trigger] layout(kind)[j].1, frame@[j + 1]),
        decreases slots@.len() - i,
    {
        let (field, shape) = slots[i];
        assert(layout(kind)[i as int] == (field, shape));
        if frame.len() <= i + 1 {
            assert(slot_fault(kind, frame@, i as int) == Some(Error::MissingField { kind, field }));
            return Err(Error::MissingField { kind, field });
        }
        if !has_shape(shape, &frame[i + 1]) {
            assert(slot_fault(kind, frame@, i as int) == Some(
                Error::ShapeViolation { kind, field, shape },
            ));
            return Err(Error::ShapeViolation { kind, field, shape });
        }
        i += 1;
    }
    let n = slots.len() + 1;
    if kind.carries_payload() {
        if frame.len() > n && !is_args(&frame[n]) {
            return Err(
                Error::ShapeViolation { kind, field: Field::Args, shape: Shape::ArrayOrNull },
            );
        }
        if frame.len() > n + 1 && !is_kwargs(&frame[n + 1]) {
            return Err(
                Error::ShapeViolation { kind, field: Field::Kwargs, shape: Shape::DictOrNull },
            );
        }
        if frame.len() > n + 2 {
            return Err(Error::Malformed(Malformation::ExtraElements));
        }
    } else if frame.len() > n {
        return Err(Error::Malformed(Malformation::ExtraElements));
    }
    Ok(())
}

/// Appends the trailing positions for `args` and `kwargs` to `frame`.
pub(crate) fn push_payload(
    frame: &mut Vec<Json>,
    args: Option<Vec<Json>>,
    kwargs: Option<Vec<(String, Json)>>,
)
    ensures
        final(frame)@.len() >= old(frame)@.len(),
        final(frame)@.subrange(0, old(frame)@.len() as int) == old(frame)@,
        payload_encoded(
            args,
            kwargs,
            final(frame)@.subrange(old(frame)@.len() as int, final(frame)@.len() as int),
        ),
{
    let ghost start = frame@;
    match kwargs {
        None => match args {
            None => {},
            Some(a) => frame.push(Json::Array(a)),
        },
        Some(k) => {
            match args {
                Some(a) => frame.push(Json::Array(a)),
                None => frame.push(Json::Array(Vec::new())),
            }
            frame.push(Json::Object(k));
        },
    }
    proof {
        assert(frame@.subrange(0, start.len() as int) =~= start);
        let t = frame@.subrange(start.len() as int, frame@.len() as int);
        if kwargs is None && args is Some {
            assert(t =~= seq![Json::Array(args->Some_0)]);
        }
    }
}

/// Removes the trailing positions from `n` on and reads `args` and `kwargs`
/// from them.
pub(crate) fn take_payload(frame: &mut Vec<Json>, n: usize) -> (r: (
    Option<Vec<Json>>,
    Option<Vec<(String, Json)>>,
))
    requires
        n <= old(frame)@.len() <= n + 2,
    ensures
        r.0 == args_at(old(frame)@, n as int),
        r.1 == kwargs_at(old(frame)@, n + 1int),
        final(frame)@ == old(frame)@.subrange(0, n as int),
{
    let ghost start = frame@;
    let mut kwargs = None;
    if frame.len() - n == 2 {
        if let Some(Json::Object(k)) = frame.pop() {
            kwargs = Some(k);
        }
    }
    let mut args = None;
    if frame.len() > n {
        if let Some(Json::Array(a)) = frame.pop() {
            args = Some(a);
        }
    }
    assert(frame@ =~= start.subrange(0, n as int));
    (args, kwargs)
}

/// Removes the last element of `frame`, a string, and returns it.
pub(crate) fn take_text(frame: &mut Vec<Json>) -> (r: String)
    requires
        old(frame)@.len() > 0,
        old(frame)@.last() is Str,
    ensures
        r == old(frame)@.last()->Str_0,
        final(frame)@ == old(frame)@.drop_last(),
{
    match frame.pop() {
        Some(Json::Str(s)) => s,
        _ => {
            assert(false);
            String::new()
        },
    }
}

/// Removes the last element of `frame`, an object, and returns its members.
pub(crate) fn take_dict(frame: &mut Vec<Json>) -> (r: Vec<(String, Json)>)
    requires
        old(frame)@.len() > 0,
        old(frame)@.last() is Object,
    ensures
        r == old(frame)@.last()->Object_0,
        final(frame)@ == old(frame)@.drop_last(),
{
    match frame.pop() {
        Some(Json::Object(m)) => m,
        _ => {
            assert(false);
            Vec::new()
        },
    }
}

/// The unsigned integer at position `i` of `frame`.
pub(crate) fn id_at(frame: &Vec<Json>, i: usize) -> (r: u64)
    requires
        i < frame@.len(),
        frame@[i as int] is UInt,
    ensures
        r == frame@[i as int]->UInt_0,
{
    match &frame[i] {
        Json::UInt(n) => *n,
        _ => {
            assert(false);
            0
        },
    }
}

/// Required positions that all hold their shapes raise no fault.
proof fn lemma_slots_pass(kind: MessageKind, frame: Seq<Json>, i: int)
    requires
        0 <= i,
        frame.len() > layout(kind).len(),
        forall|j: int|
            i <= j < layout(kind).len() ==> holds(#[trigger] layout(kind)[j].1, frame[j + 1]),
    ensures
        slot_fault(kind, frame, i) is None,
    decreases layout(kind).len() - i,
{
    if i < layout(kind).len() {
        lemma_slots_pass(kind, frame, i + 1);
    }
}

/// A frame written for conforming values is accepted by the decoder, and
/// reading it back gives those values; `args` comes back as written unless
/// the encoder stood an empty array in for it.
pub proof fn lemma_encoded_decodes(
    kind: MessageKind,
    fields: Seq<Json>,
    args: Option<Vec<Json>>,
    kwargs: Option<Vec<(String, Json)>>,
    w: Seq<Json>,
)
    requires
        conforms(kind, fields, args, kwargs),
        encoded(kind, fields, args, kwargs, w),
    ensures
        decode_fault(kind, w) is None,
        forall|i: int| 0 <= i < fields.len() ==> w[i + 1] == fields[i],
        kwargs_at(w, fields.len() + 2int) == kwargs,
        args is Some || kwargs is None ==> args_at(w, fields.len() + 1int) == args,
{
    let n = fields.len() as int + 1;
    let t = w.subrange(n as int, w.len() as int);
    assert forall|i: int| 0 <= i < fields.len() implies w[i + 1] == fields[i] by {
        assert(w.subrange(1, n as int)[i] == w[i + 1]);
    }
    assert forall|j: int| 0 <= j < layout(kind).len() implies holds(
        #[trigger] layout(kind)[j].1,
        w[j + 1],
    ) by {
        assert(w[j + 1] == fields[j]);
    }
    lemma_slots_pass(kind, w, 0);
    if t.len() > 0 {
        assert(w[n] == t[0]);
    }
    if t.len() > 1 {
        assert(w[n + 1] == t[1]);
    }
}

} // verus!
