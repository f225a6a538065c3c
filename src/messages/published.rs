use crate::error::Error;
use crate::frame::{check_frame, decode_fault, encoded, id_at, lemma_encoded_decodes};
use crate::json::Json;
use crate::kind::{holds, layout, MessageKind};
use crate::messages::WampMessage;
use vstd::prelude::*;

verus! {

/// Acknowledges a publication.
///
/// Wire form: `[17, request_id, publication]`.
#[derive(Debug, PartialEq, Eq)]
pub struct Published {
    pub request_id: u64,
    pub publication: u64,
}

impl WampMessage for Published {
    const ID: u64 = 17;

    open spec fn message_kind() -> MessageKind {
        MessageKind::Published
    }

    open spec fn wire_fields(&self) -> Seq<Json> {
        seq![Json::UInt(self.request_id), Json::UInt(self.publication)]
    }

    open spec fn wire_args(&self) -> Option<Vec<Json>> {
        None
    }

    open spec fn wire_kwargs(&self) -> Option<Vec<(String, Json)>> {
        None
    }

    open spec fn read_frame(frame: Seq<Json>) -> Published {
        Published {
            request_id: frame[1]->UInt_0,
            publication: frame[2]->UInt_0,
        }
    }

    fn kind() -> (r: MessageKind) {
        MessageKind::Published
    }

    fn encode(self) -> (r: Vec<Json>) {
        let mut frame: Vec<Json> = Vec::new();
        frame.push(Json::UInt(MessageKind::Published.tag()));
        frame.push(Json::UInt(self.request_id));
        frame.push(Json::UInt(self.publication));
        proof {
            assert(frame@.subrange(3, 3) =~= Seq::<Json>::empty());
            assert(frame@.subrange(1, 3) =~= self.wire_fields());
        }
        frame
    }

    fn decode(frame: Vec<Json>) -> (r: Result<Published, Error>) {
        let mut frame = frame;
        if let Err(e) = check_frame(MessageKind::Published, &frame) {
            return Err(e);
        }
        let ghost w = frame@;
        proof {
            assert(holds(layout(MessageKind::Published)[0].1, w[1]));
            assert(holds(layout(MessageKind::Published)[1].1, w[2]));
        }
        let request_id = id_at(&frame, 1);
        let publication = id_at(&frame, 2);
        Ok(Published { request_id, publication })
    }

    proof fn lemma_id() {
    }

    proof fn lemma_round_trip(self, w: Seq<Json>) {
        assert(holds(layout(MessageKind::Published)[0].1, self.wire_fields()[0]));
        lemma_encoded_decodes(
            MessageKind::Published,
            self.wire_fields(),
            self.wire_args(),
            self.wire_kwargs(),
            w,
        );
    }
}

} // verus!
