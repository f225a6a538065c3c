use crate::error::Error;
use crate::frame::{check_frame, decode_fault, encoded, id_at, lemma_encoded_decodes};
use crate::json::Json;
use crate::kind::{holds, layout, MessageKind};
use crate::messages::WampMessage;
use vstd::prelude::*;

verus! {

/// Acknowledges the end of a subscription.
///
/// Wire form: `[35, request_id]`.
#[derive(Debug, PartialEq, Eq)]
pub struct Unsubscribed {
    pub request_id: u64,
}

impl WampMessage for Unsubscribed {
    const ID: u64 = 35;

    open spec fn message_kind() -> MessageKind {
        MessageKind::Unsubscribed
    }

    open spec fn wire_fields(&self) -> Seq<Json> {
        seq![Json::UInt(self.request_id)]
    }

    open spec fn wire_args(&self) -> Option<Vec<Json>> {
        None
    }

    open spec fn wire_kwargs(&self) -> Option<Vec<(String, Json)>> {
        None
    }

    open spec fn read_frame(frame: Seq<Json>) -> Unsubscribed {
        Unsubscribed {
            request_id: frame[1]->UInt_0,
        }
    }

    fn kind() -> (r: MessageKind) {
        MessageKind::Unsubscribed
    }

    fn encode(self) -> (r: Vec<Json>) {
        let mut frame: Vec<Json> = Vec::new();
        frame.push(Json::UInt(MessageKind::Unsubscribed.tag()));
        frame.push(Json::UInt(self.request_id));
        proof {
            assert(frame@.subrange(2, 2) =~= Seq::<Json>::empty());
            assert(frame@.subrange(1, 2) =~= self.wire_fields());
        }
        frame
    }

    fn decode(frame: Vec<Json>) -> (r: Result<Unsubscribed, Error>) {
        let mut frame = frame;
        if let Err(e) = check_frame(MessageKind::Unsubscribed, &frame) {
            return Err(e);
        }
        let ghost w = frame@;
        proof {
            assert(holds(layout(MessageKind::Unsubscribed)[0].1, w[1]));
        }
        let request_id = id_at(&frame, 1);
        Ok(Unsubscribed { request_id })
    }

    proof fn lemma_id() {
    }

    proof fn lemma_round_trip(self, w: Seq<Json>) {
        assert(holds(layout(MessageKind::Unsubscribed)[0].1, self.wire_fields()[0]));
        lemma_encoded_decodes(
            MessageKind::Unsubscribed,
            self.wire_fields(),
            self.wire_args(),
            self.wire_kwargs(),
            w,
        );
    }
}

} // verus!
