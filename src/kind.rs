use crate::json::{is_args_spec, is_kwargs_spec, is_map_spec, Json};
use vstd::prelude::*;

verus! {

/// The known message types, each with a fixed wire tag.
#[derive(Clone, Copy, Debug, PartialEq, Eq, Structural)]
pub enum MessageKind {
    Hello,
    Welcome,
    Abort,
    Challenge,
    Authenticate,
    Goodbye,
    Error,
    Publish,
    Published,
    Subscribe,
    Subscribed,
    Unsubscribe,
    Unsubscribed,
    Event,
    Call,
    Cancel,
    Result,
    Register,
    Registered,
    Unregister,
    Unregistered,
    Invocation,
    Interrupt,
    Yield,
}

/// Names of the positions of a frame, used to say where decoding failed.
#[derive(Clone, Copy, Debug, PartialEq, Eq, Structural)]
pub enum Field {
    RequestId,
    Session,
    Subscription,
    Publication,
    Registration,
    Details,
    Options,
    Realm,
    Reason,
    AuthMethod,
    Signature,
    Topic,
    Procedure,
    ErrorUri,
    RequestType,
    Args,
    Kwargs,
}

/// What a position of a frame must hold.
#[derive(Clone, Copy, Debug, PartialEq, Eq, Structural)]
pub enum Shape {
    /// An unsigned integer.
    Integer,
    /// A string.
    Text,
    /// An object.
    Dict,
    /// The tag of a message type that an error message may answer.
    RequestType,
    /// An array, or null.
    ArrayOrNull,
    /// An object, or null.
    DictOrNull,
}

/// The wire tag of each message type.
pub open spec fn tag(kind: MessageKind) -> u64 {
    match kind {
        MessageKind::Hello => 1,
        MessageKind::Welcome => 2,
        MessageKind::Abort => 3,
        MessageKind::Challenge => 4,
        MessageKind::Authenticate => 5,
        MessageKind::Goodbye => 6,
        MessageKind::Error => 8,
        MessageKind::Publish => 16,
        MessageKind::Published => 17,
        MessageKind::Subscribe => 32,
        MessageKind::Subscribed => 33,
        MessageKind::Unsubscribe => 34,
        MessageKind::Unsubscribed => 35,
        MessageKind::Event => 36,
        MessageKind::Call => 48,
        MessageKind::Cancel => 49,
        MessageKind::Result => 50,
        MessageKind::Register => 64,
        MessageKind::Registered => 65,
        MessageKind::Unregister => 66,
        MessageKind::Unregistered => 67,
        MessageKind::Invocation => 68,
        MessageKind::Interrupt => 69,
        MessageKind::Yield => 70,
    }
}

/// The message type whose tag is `t`, if any.
pub open spec fn kind_of_tag_spec(t: u64) -> Option<MessageKind> {
    if exists|k: MessageKind| tag(k) == t {
        Some(choose|k: MessageKind| tag(k) == t)
    } else {
        None
    }
}

/// Message types that an error message may answer.
pub open spec fn is_request_type(kind: MessageKind) -> bool {
    match kind {
        MessageKind::Subscribe | MessageKind::Unsubscribe | MessageKind::Publish
        | MessageKind::Register | MessageKind::Unregister | MessageKind::Invocation
        | MessageKind::Cancel | MessageKind::Call => true,
        _ => false,
    }
}

/// Whether message type carries the optional trailing `args` and `kwargs`.
pub open spec fn carries_payload(kind: MessageKind) -> bool {
    match kind {
        MessageKind::Error | MessageKind::Publish | MessageKind::Event | MessageKind::Call
        | MessageKind::Result | MessageKind::Invocation | MessageKind::Yield => true,
        _ => false,
    }
}

/// The required positions of each message type after its tag, in wire order.
pub open spec fn layout(kind: MessageKind) -> Seq<(Field, Shape)> {
    match kind {
        MessageKind::Hello => seq![(Field::Realm, Shape::Text), (Field::Details, Shape::Dict)],
        MessageKind::Welcome => seq![
            (Field::Session, Shape::Integer),
            (Field::Details, Shape::Dict),
        ],
        MessageKind::Abort => seq![(Field::Details, Shape::Dict), (Field::Reason, Shape::Text)],
        MessageKind::Challenge => seq![
            (Field::AuthMethod, Shape::Text),
            (Field::Details, Shape::Dict),
        ],
        MessageKind::Authenticate => seq![
            (Field::Signature, Shape::Text),
            (Field::Details, Shape::Dict),
        ],
        MessageKind::Goodbye => seq![(Field::Details, Shape::Dict), (Field::Reason, Shape::Text)],
        MessageKind::Error => seq![
            (Field::RequestType, Shape::RequestType),
            (Field::RequestId, Shape::Integer),
            (Field::Details, Shape::Dict),
            (Field::ErrorUri, Shape::Text),
        ],
        MessageKind::Publish => seq![
            (Field::RequestId, Shape::Integer),
            (Field::Options, Shape::Dict),
            (Field::Topic, Shape::Text),
        ],
        MessageKind::Published => seq![
            (Field::RequestId, Shape::Integer),
            (Field::Publication, Shape::Integer),
        ],
        MessageKind::Subscribe => seq![
            (Field::RequestId, Shape::Integer),
            (Field::Options, Shape::Dict),
            (Field::Topic, Shape::Text),
        ],
        MessageKind::Subscribed => seq![
            (Field::RequestId, Shape::Integer),
            (Field::Subscription, Shape::Integer),
        ],
        MessageKind::Unsubscribe => seq![
            (Field::RequestId, Shape::Integer),
            (Field::Subscription, Shape::Integer),
        ],
        MessageKind::Unsubscribed => seq![(Field::RequestId, Shape::Integer)],
        MessageKind::Event => seq![
            (Field::Subscription, Shape::Integer),
            (Field::Publication, Shape::Integer),
            (Field::Details, Shape::Dict),
        ],
        MessageKind::Call => seq![
            (Field::RequestId, Shape::Integer),
            (Field::Options, Shape::Dict),
            (Field::Procedure, Shape::Text),
        ],
        MessageKind::Cancel => seq![
            (Field::RequestId, Shape::Integer),
            (Field::Options, Shape::Dict),
        ],
        MessageKind::Result => seq![
            (Field::RequestId, Shape::Integer),
            (Field::Details, Shape::Dict),
        ],
        MessageKind::Register => seq![
            (Field::RequestId, Shape::Integer),
            (Field::Options, Shape::Dict),
            (Field::Procedure, Shape::Text),
        ],
        MessageKind::Registered => seq![
            (Field::RequestId, Shape::Integer),
            (Field::Registration, Shape::Integer),
        ],
        MessageKind::Unregister => seq![
            (Field::RequestId, Shape::Integer),
            (Field::Registration, Shape::Integer),
        ],
        MessageKind::Unregistered => seq![(Field::RequestId, Shape::Integer)],
        MessageKind::Invocation => seq![
            (Field::RequestId, Shape::Integer),
            (Field::Registration, Shape::Integer),
            (Field::Details, Shape::Dict),
        ],
        MessageKind::Interrupt => seq![
            (Field::RequestId, Shape::Integer),
            (Field::Options, Shape::Dict),
        ],
        MessageKind::Yield => seq![
            (Field::RequestId, Shape::Integer),
            (Field::Options, Shape::Dict),
        ],
    }
}

/// Whether the value `v` has the shape `shape`.
pub open spec fn holds(shape: Shape, v: Json) -> bool {
    match shape {
        Shape::Integer => v is UInt,
        Shape::Text => v is Str,
        Shape::Dict => is_map_spec(v),
        Shape::RequestType => v is UInt && (kind_of_tag_spec(v->UInt_0) matches Some(k)
            && is_request_type(k)),
        Shape::ArrayOrNull => is_args_spec(v),
        Shape::DictOrNull => is_kwargs_spec(v),
    }
}

impl MessageKind {
    /// The wire tag of this message type.
    pub fn tag(self) -> (r: u64)
        ensures
            r == tag(self),
    {
        match self {
            MessageKind::Hello => 1,
            MessageKind::Welcome => 2,
            MessageKind::Abort => 3,
            MessageKind::Challenge => 4,
            MessageKind::Authenticate => 5,
            MessageKind::Goodbye => 6,
            MessageKind::Error => 8,
            MessageKind::Publish => 16,
            MessageKind::Published => 17,
            MessageKind::Subscribe => 32,
            MessageKind::Subscribed => 33,
            MessageKind::Unsubscribe => 34,
            MessageKind::Unsubscribed => 35,
            MessageKind::Event => 36,
            MessageKind::Call => 48,
            MessageKind::Cancel => 49,
            MessageKind::Result => 50,
            MessageKind::Register => 64,
            MessageKind::Registered => 65,
            MessageKind::Unregister => 66,
            MessageKind::Unregistered => 67,
            MessageKind::Invocation => 68,
            MessageKind::Interrupt => 69,
            MessageKind::Yield => 70,
        }
    }

    /// Whether an error message may answer a message of this type.
    pub fn is_request(self) -> (r: bool)
        ensures
            r == is_request_type(self),
    {
        match self {
            MessageKind::Subscribe | MessageKind::Unsubscribe | MessageKind::Publish
            | MessageKind::Register | MessageKind::Unregister | MessageKind::Invocation
            | MessageKind::Cancel | MessageKind::Call => true,
            _ => false,
        }
    }

    /// Whether messages of this type carry trailing `args` and `kwargs`.
    pub fn carries_payload(self) -> (r: bool)
        ensures
            r == carries_payload(self),
    {
        match self {
            MessageKind::Error | MessageKind::Publish | MessageKind::Event | MessageKind::Call
            | MessageKind::Result | MessageKind::Invocation | MessageKind::Yield => true,
            _ => false,
        }
    }

    /// The message type whose wire tag is `t`, or `None` for an unknown tag.
    pub fn from_tag(t: u64) -> (r: Option<MessageKind>)
        ensures
            r == kind_of_tag_spec(t),
            r matches Some(k) ==> tag(k) == t,
    {
        let r = match t {
            1 => Some(MessageKind::Hello),
            2 => Some(MessageKind::Welcome),
            3 => Some(MessageKind::Abort),
            4 => Some(MessageKind::Challenge),
            5 => Some(MessageKind::Authenticate),
            6 => Some(MessageKind::Goodbye),
            8 => Some(MessageKind::Error),
            16 => Some(MessageKind::Publish),
            17 => Some(MessageKind::Published),
            32 => Some(MessageKind::Subscribe),
            33 => Some(MessageKind::Subscribed),
            34 => Some(MessageKind::Unsubscribe),
            35 => Some(MessageKind::Unsubscribed),
            36 => Some(MessageKind::Event),
            48 => Some(MessageKind::Call),
            49 => Some(MessageKind::Cancel),
            50 => Some(MessageKind::Result),
            64 => Some(MessageKind::Register),
            65 => Some(MessageKind::Registered),
            66 => Some(MessageKind::Unregister),
            67 => Some(MessageKind::Unregistered),
            68 => Some(MessageKind::Invocation),
            69 => Some(MessageKind::Interrupt),
            70 => Some(MessageKind::Yield),
            _ => None,
        };
        proof {
            lemma_tag_injective();
            match r {
                Some(k) => assert(tag(k) == t),
                None => assert forall|k: MessageKind| tag(k) != t by {},
            }
        }
        r
    }
}

/// Distinct message types have distinct tags.
pub proof fn lemma_tag_injective()
    ensures
        forall|a: MessageKind, b: MessageKind| tag(a) == tag(b) ==> a == b,
{
    assert forall|a: MessageKind, b: MessageKind| tag(a) == tag(b) implies a == b by {}
}

/// Reading back the tag of a message type gives that type.
pub proof fn lemma_kind_of_own_tag(kind: MessageKind)
    ensures
        kind_of_tag_spec(tag(kind)) == Some(kind),
{
    lemma_tag_injective();
}

} // verus!
