use crate::error::Error;
use crate::frame::{check_frame, decode_fault, encoded, id_at, lemma_encoded_decodes};
use crate::json::Json;
use crate::kind::{holds, layout, MessageKind};
use crate::messages::WampMessage;
use vstd::prelude::*;

verus! {

/// Acknowledges the withdrawal of a registration.
///
/// Wire form: `[67, request_id]`.
#[derive(Debug, PartialEq, Eq)]
pub struct Unregistered {
    pub request_id: u64,
}

impl WampMessage for Unregistered {
    const ID: u64 = 67;

    open spec fn message_kind() -> MessageKind {
        MessageKind::Unregistered
    }

    open spec fn wire_fields(&self) -> Seq<Json> {
        seq![Json::UInt(self.request_id)]
    }

    open spec fn wire_args(&self) -> Option<Vec<Json>> {
        None
    }

    open spec fn wire_kwargs(&self) -> Option<Vec<(String, Json)>> {
        None
    }

    open spec fn read_frame(frame: Seq<Json>) -> Unregistered {
        Unregistered {
            request_id: frame[1]->UInt_0,
        }
    }

    fn kind() -> (r: MessageKind) {
        MessageKind::Unregistered
    }

    fn encode(self) -> (r: Vec<Json>) {
        let mut frame: Vec<Json> = Vec::new();
        frame.push(Json::UInt(MessageKind::Unregistered.tag()));
        frame.push(Json::UInt(self.request_id));
        proof {
            assert(frame@.subrange(2, 2) =~= Seq::<Json>::empty());
            assert(frame@.subrange(1, 2) =~= self.wire_fields());
        }
        frame
    }

    fn decode(frame: Vec<Json>) -> (r: Result<Unregistered, Error>) {
        let mut frame = frame;
        if let Err(e) = check_frame(MessageKind::Unregistered, &frame) {
            return Err(e);
        }
        let ghost w = frame@;
        proof {
            assert(holds(layout(MessageKind::Unregistered)[0].1, w[1]));
        }
        let request_id = id_at(&frame, 1);
        Ok(Unregistered { request_id })
    }

    proof fn lemma_id() {
    }

    proof fn lemma_round_trip(self, w: Seq<Json>) {
        assert(holds(layout(MessageKind::Unregistered)[0].1, self.wire_fields()[0]));
        lemma_encoded_decodes(
            MessageKind::Unregistered,
            self.wire_fields(),
            self.wire_args(),
            self.wire_kwargs(),
            w,
        );
    }
}

} // verus!
