use crate::error::Error;
use crate::frame::{
    args_at, check_frame, decode_fault, encoded, id_at, kwargs_at, lemma_encoded_decodes,
    push_payload, take_dict, take_payload, take_text,
};
use crate::json::Json;
use crate::kind::{
    holds, is_request_type, kind_of_tag_spec, layout, lemma_kind_of_own_tag, tag, MessageKind,
    Shape,
};
use crate::messages::WampMessage;
use vstd::prelude::*;

verus! {

/// The message types an error message may answer.
#[derive(Clone, Copy, Debug, PartialEq, Eq, Structural)]
pub enum WampErrorEvent {
    Unsubscribe,
    Subscribe,
    Publish,
    Register,
    Unregister,
    Invocation,
    Cancel,
    Call,
}

impl WampErrorEvent {
    /// The message type this names.
    pub open spec fn kind_spec(self) -> MessageKind {
        match self {
            WampErrorEvent::Unsubscribe => MessageKind::Unsubscribe,
            WampErrorEvent::Subscribe => MessageKind::Subscribe,
            WampErrorEvent::Publish => MessageKind::Publish,
            WampErrorEvent::Register => MessageKind::Register,
            WampErrorEvent::Unregister => MessageKind::Unregister,
            WampErrorEvent::Invocation => MessageKind::Invocation,
            WampErrorEvent::Cancel => MessageKind::Cancel,
            WampErrorEvent::Call => MessageKind::Call,
        }
    }

    /// The wire tag of the message type this names.
    pub open spec fn tag_spec(self) -> u64 {
        tag(self.kind_spec())
    }

    /// The request type whose tag is `t`; `Call` stands in for a tag that
    /// names no request type.
    pub open spec fn of_tag(t: u64) -> WampErrorEvent {
        match kind_of_tag_spec(t) {
            Some(MessageKind::Unsubscribe) => WampErrorEvent::Unsubscribe,
            Some(MessageKind::Subscribe) => WampErrorEvent::Subscribe,
            Some(MessageKind::Publish) => WampErrorEvent::Publish,
            Some(MessageKind::Register) => WampErrorEvent::Register,
            Some(MessageKind::Unregister) => WampErrorEvent::Unregister,
            Some(MessageKind::Invocation) => WampErrorEvent::Invocation,
            Some(MessageKind::Cancel) => WampErrorEvent::Cancel,
            _ => WampErrorEvent::Call,
        }
    }

    /// The message type this names.
    pub fn kind(self) -> (r: MessageKind)
        ensures
            r == self.kind_spec(),
            is_request_type(r),
    {
        match self {
            WampErrorEvent::Unsubscribe => MessageKind::Unsubscribe,
            WampErrorEvent::Subscribe => MessageKind::Subscribe,
            WampErrorEvent::Publish => MessageKind::Publish,
            WampErrorEvent::Register => MessageKind::Register,
            WampErrorEvent::Unregister => MessageKind::Unregister,
            WampErrorEvent::Invocation => MessageKind::Invocation,
            WampErrorEvent::Cancel => MessageKind::Cancel,
            WampErrorEvent::Call => MessageKind::Call,
        }
    }

    /// The wire tag of the message type this names.
    pub fn tag(self) -> (r: u64)
        ensures
            r == self.tag_spec(),
    {
        self.kind().tag()
    }

    /// The request type whose tag is `t`, if `t` names one.
    pub fn from_tag(t: u64) -> (r: Option<WampErrorEvent>)
        ensures
            r is Some <==> holds(Shape::RequestType, Json::UInt(t)),
            r is Some ==> r->Some_0 == WampErrorEvent::of_tag(t),
    {
        match MessageKind::from_tag(t) {
            Some(MessageKind::Unsubscribe) => Some(WampErrorEvent::Unsubscribe),
            Some(MessageKind::Subscribe) => Some(WampErrorEvent::Subscribe),
            Some(MessageKind::Publish) => Some(WampErrorEvent::Publish),
            Some(MessageKind::Register) => Some(WampErrorEvent::Register),
            Some(MessageKind::Unregister) => Some(WampErrorEvent::Unregister),
            Some(MessageKind::Invocation) => Some(WampErrorEvent::Invocation),
            Some(MessageKind::Cancel) => Some(WampErrorEvent::Cancel),
            Some(MessageKind::Call) => Some(WampErrorEvent::Call),
            _ => None,
        }
    }

    /// The request type read from a position known to hold a request tag.
    fn from_request_tag(t: u64) -> (r: WampErrorEvent)
        requires
            holds(Shape::RequestType, Json::UInt(t)),
        ensures
            r == WampErrorEvent::of_tag(t),
    {
        match WampErrorEvent::from_tag(t) {
            Some(e) => e,
            None => WampErrorEvent::Call,
        }
    }

    /// The tag of a request type is a request tag, and reads back as that type.
    pub proof fn lemma_tag(self)
        ensures
            holds(Shape::RequestType, Json::UInt(self.tag_spec())),
            WampErrorEvent::of_tag(self.tag_spec()) == self,
    {
        lemma_kind_of_own_tag(self.kind_spec());
    }
}


/// Reports that a request failed.
///
/// Wire form: `[8, event, request_id, details, error, args?, kwargs?]`.
#[derive(Debug, PartialEq, Eq)]
pub struct WampError {
    pub event: WampErrorEvent,
    pub request_id: u64,
    pub details: Vec<(String, Json)>,
    pub error: String,
    pub args: Option<Vec<Json>>,
    pub kwargs: Option<Vec<(String, Json)>>,
}

impl WampMessage for WampError {
    const ID: u64 = 8;

    open spec fn message_kind() -> MessageKind {
        MessageKind::Error
    }

    open spec fn wire_fields(&self) -> Seq<Json> {
        seq![
            Json::UInt(self.event.tag_spec()),
            Json::UInt(self.request_id),
            Json::Object(self.details),
            Json::Str(self.error),
        ]
    }

    open spec fn wire_args(&self) -> Option<Vec<Json>> {
        self.args
    }

    open spec fn wire_kwargs(&self) -> Option<Vec<(String, Json)>> {
        self.kwargs
    }

    open spec fn read_frame(frame: Seq<Json>) -> WampError {
        WampError {
            event: WampErrorEvent::of_tag(frame[1]->UInt_0),
            request_id: frame[2]->UInt_0,
            details: frame[3]->Object_0,
            error: frame[4]->Str_0,
            args: args_at(frame, 5),
            kwargs: kwargs_at(frame, 6),
        }
    }

    fn kind() -> (r: MessageKind) {
        MessageKind::Error
    }

    fn encode(self) -> (r: Vec<Json>) {
        let mut frame: Vec<Json> = Vec::new();
        frame.push(Json::UInt(MessageKind::Error.tag()));
        frame.push(Json::UInt(self.event.tag()));
        frame.push(Json::UInt(self.request_id));
        frame.push(Json::Object(self.details));
        frame.push(Json::Str(self.error));
        let ghost head = frame@;
        push_payload(&mut frame, self.args, self.kwargs);
        proof {
            assert(frame@.subrange(1, 5) =~= head.subrange(1, 5));
            assert(frame@[0] == frame@.subrange(0, 5)[0]);
            assert(frame@.subrange(1, 5) =~= self.wire_fields());
        }
        frame
    }

    fn decode(frame: Vec<Json>) -> (r: Result<WampError, Error>) {
        let mut frame = frame;
        if let Err(e) = check_frame(MessageKind::Error, &frame) {
            return Err(e);
        }
        let ghost w = frame@;
        proof {
            assert(holds(layout(MessageKind::Error)[0].1, w[1]));
            assert(holds(layout(MessageKind::Error)[1].1, w[2]));
            assert(holds(layout(MessageKind::Error)[2].1, w[3]));
            assert(holds(layout(MessageKind::Error)[3].1, w[4]));
        }
        let event = WampErrorEvent::from_request_tag(id_at(&frame, 1));
        let request_id = id_at(&frame, 2);
        let (args, kwargs) = take_payload(&mut frame, 5);
        let error = take_text(&mut frame);
        let details = take_dict(&mut frame);
        Ok(WampError { event, request_id, details, error, args, kwargs })
    }

    proof fn lemma_id() {
    }

    proof fn lemma_round_trip(self, w: Seq<Json>) {
        self.event.lemma_tag();
        assert(holds(layout(MessageKind::Error)[0].1, self.wire_fields()[0]));
        lemma_encoded_decodes(
            MessageKind::Error,
            self.wire_fields(),
            self.wire_args(),
            self.wire_kwargs(),
            w,
        );
    }
}

} // verus!
