use crate::error::Error;
use crate::factories::{increment, RequestIdCounter};
use crate::frame::{
    args_at, check_frame, decode_fault, encoded, id_at, kwargs_at, lemma_encoded_decodes,
    push_payload, take_dict, take_payload,
};
use crate::json::Json;
use crate::kind::{holds, layout, MessageKind};
use crate::messages::WampMessage;
use vstd::prelude::*;

verus! {

/// Asks a callee to run a registered procedure.
///
/// Wire form: `[68, request_id, registration, details, args?, kwargs?]`.
#[derive(Debug, PartialEq, Eq)]
pub struct Invocation {
    pub request_id: u64,
    pub registration: u64,
    pub details: Vec<(String, Json)>,
    pub args: Option<Vec<Json>>,
    pub kwargs: Option<Vec<(String, Json)>>,
}

impl Invocation {
    /// Builds an invocation of `registration`,
    /// stamped with a fresh request id from `ids`, with empty details and no payload.
    pub fn new(ids: &mut RequestIdCounter, registration: u64) -> (r: Invocation)
        requires
            old(ids).last < u64::MAX,
        ensures
            r.request_id == old(ids).last + 1,
            final(ids).last == r.request_id,
            r.registration == registration,
            r.details@.len() == 0,
            r.args is None,
            r.kwargs is None,
    {
        let request_id = increment(ids);
        Invocation {
            request_id,
            details: Vec::new(),
            registration,
            args: None,
            kwargs: None,
        }
    }
}

impl WampMessage for Invocation {
    const ID: u64 = 68;

    open spec fn message_kind() -> MessageKind {
        MessageKind::Invocation
    }

    open spec fn wire_fields(&self) -> Seq<Json> {
        seq![Json::UInt(self.request_id), Json::UInt(self.registration), Json::Object(self.details)]
    }

    open spec fn wire_args(&self) -> Option<Vec<Json>> {
        self.args
    }

    open spec fn wire_kwargs(&self) -> Option<Vec<(String, Json)>> {
        self.kwargs
    }

    open spec fn read_frame(frame: Seq<Json>) -> Invocation {
        Invocation {
            request_id: frame[1]->UInt_0,
            registration: frame[2]->UInt_0,
            details: frame[3]->Object_0,
            args: args_at(frame, 4),
            kwargs: kwargs_at(frame, 5),
        }
    }

    fn kind() -> (r: MessageKind) {
        MessageKind::Invocation
    }

    fn encode(self) -> (r: Vec<Json>) {
        let mut frame: Vec<Json> = Vec::new();
        frame.push(Json::UInt(MessageKind::Invocation.tag()));
        frame.push(Json::UInt(self.request_id));
        frame.push(Json::UInt(self.registration));
        frame.push(Json::Object(self.details));
        let ghost head = frame@;
        push_payload(&mut frame, self.args, self.kwargs);
        proof {
            assert(frame@.subrange(1, 4) =~= head.subrange(1, 4));
            assert(frame@[0] == frame@.subrange(0, 4)[0]);
            assert(frame@.subrange(1, 4) =~= self.wire_fields());
        }
        frame
    }

    fn decode(frame: Vec<Json>) -> (r: Result<Invocation, Error>) {
        let mut frame = frame;
        if let Err(e) = check_frame(MessageKind::Invocation, &frame) {
            return Err(e);
        }
        let ghost w = frame@;
        proof {
            assert(holds(layout(MessageKind::Invocation)[0].1, w[1]));
            assert(holds(layout(MessageKind::Invocation)[1].1, w[2]));
            assert(holds(layout(MessageKind::Invocation)[2].1, w[3]));
        }
        let request_id = id_at(&frame, 1);
        let registration = id_at(&frame, 2);
        let (args, kwargs) = take_payload(&mut frame, 4);
        let details = take_dict(&mut frame);
        Ok(Invocation { request_id, registration, details, args, kwargs })
    }

    proof fn lemma_id() {
    }

    proof fn lemma_round_trip(self, w: Seq<Json>) {
        assert(holds(layout(MessageKind::Invocation)[0].1, self.wire_fields()[0]));
        lemma_encoded_decodes(
            MessageKind::Invocation,
            self.wire_fields(),
            self.wire_args(),
            self.wire_kwargs(),
            w,
        );
    }
}

} // verus!
