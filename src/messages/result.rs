use crate::error::Error;
use crate::frame::{
    args_at, check_frame, decode_fault, encoded, id_at, kwargs_at, lemma_encoded_decodes,
    push_payload, take_dict, take_payload,
};
use crate::json::Json;
use crate::kind::{holds, layout, MessageKind};
use crate::messages::WampMessage;
use vstd::prelude::*;

verus! {

/// Returns the result of a call to the caller.
///
/// Wire form: `[50, request_id, details, args?, kwargs?]`.
#[derive(Debug, PartialEq, Eq)]
pub struct WampResult {
    pub request_id: u64,
    pub details: Vec<(String, Json)>,
    pub args: Option<Vec<Json>>,
    pub kwargs: Option<Vec<(String, Json)>>,
}

impl WampMessage for WampResult {
    const ID: u64 = 50;

    open spec fn message_kind() -> MessageKind {
        MessageKind::Result
    }

    open spec fn wire_fields(&self) -> Seq<Json> {
        seq![Json::UInt(self.request_id), Json::Object(self.details)]
    }

    open spec fn wire_args(&self) -> Option<Vec<Json>> {
        self.args
    }

    open spec fn wire_kwargs(&self) -> Option<Vec<(String, Json)>> {
        self.kwargs
    }

    open spec fn read_frame(frame: Seq<Json>) -> WampResult {
        WampResult {
            request_id: frame[1]->UInt_0,
            details: frame[2]->Object_0,
            args: args_at(frame, 3),
            kwargs: kwargs_at(frame, 4),
        }
    }

    fn kind() -> (r: MessageKind) {
        MessageKind::Result
    }

    fn encode(self) -> (r: Vec<Json>) {
        let mut frame: Vec<Json> = Vec::new();
        frame.push(Json::UInt(MessageKind::Result.tag()));
        frame.push(Json::UInt(self.request_id));
        frame.push(Json::Object(self.details));
        let ghost head = frame@;
        push_payload(&mut frame, self.args, self.kwargs);
        proof {
            assert(frame@.subrange(1, 3) =~= head.subrange(1, 3));
            assert(frame@[0] == frame@.subrange(0, 3)[0]);
            assert(frame@.subrange(1, 3) =~= self.wire_fields());
        }
        frame
    }

    fn decode(frame: Vec<Json>) -> (r: Result<WampResult, Error>) {
        let mut frame = frame;
        if let Err(e) = check_frame(MessageKind::Result, &frame) {
            return Err(e);
        }
        let ghost w = frame@;
        proof {
            assert(holds(layout(MessageKind::Result)[0].1, w[1]));
            assert(holds(layout(MessageKind::Result)[1].1, w[2]));
        }
        let request_id = id_at(&frame, 1);
        let (args, kwargs) = take_payload(&mut frame, 3);
        let details = take_dict(&mut frame);
        Ok(WampResult { request_id, details, args, kwargs })
    }

    proof fn lemma_id() {
    }

    proof fn lemma_round_trip(self, w: Seq<Json>) {
        assert(holds(layout(MessageKind::Result)[0].1, self.wire_fields()[0]));
        lemma_encoded_decodes(
            MessageKind::Result,
            self.wire_fields(),
            self.wire_args(),
            self.wire_kwargs(),
            w,
        );
    }
}

} // verus!
