use crate::error::Error;
use crate::frame::{check_frame, decode_fault, encoded, id_at, lemma_encoded_decodes, take_dict};
use crate::json::Json;
use crate::kind::{holds, layout, MessageKind};
use crate::messages::WampMessage;
use vstd::prelude::*;

verus! {

/// Cancels an outstanding call.
///
/// Wire form: `[49, request_id, options]`.
#[derive(Debug, PartialEq, Eq)]
pub struct Cancel {
    pub request_id: u64,
    pub options: Vec<(String, Json)>,
}

impl WampMessage for Cancel {
    const ID: u64 = 49;

    open spec fn message_kind() -> MessageKind {
        MessageKind::Cancel
    }

    open spec fn wire_fields(&self) -> Seq<Json> {
        seq![Json::UInt(self.request_id), Json::Object(self.options)]
    }

    open spec fn wire_args(&self) -> Option<Vec<Json>> {
        None
    }

    open spec fn wire_kwargs(&self) -> Option<Vec<(String, Json)>> {
        None
    }

    open spec fn read_frame(frame: Seq<Json>) -> Cancel {
        Cancel {
            request_id: frame[1]->UInt_0,
            options: frame[2]->Object_0,
        }
    }

    fn kind() -> (r: MessageKind) {
        MessageKind::Cancel
    }

    fn encode(self) -> (r: Vec<Json>) {
        let mut frame: Vec<Json> = Vec::new();
        frame.push(Json::UInt(MessageKind::Cancel.tag()));
        frame.push(Json::UInt(self.request_id));
        frame.push(Json::Object(self.options));
        proof {
            assert(frame@.subrange(3, 3) =~= Seq::<Json>::empty());
            assert(frame@.subrange(1, 3) =~= self.wire_fields());
        }
        frame
    }

    fn decode(frame: Vec<Json>) -> (r: Result<Cancel, Error>) {
        let mut frame = frame;
        if let Err(e) = check_frame(MessageKind::Cancel, &frame) {
            return Err(e);
        }
        let ghost w = frame@;
        proof {
            assert(holds(layout(MessageKind::Cancel)[0].1, w[1]));
            assert(holds(layout(MessageKind::Cancel)[1].1, w[2]));
        }
        let request_id = id_at(&frame, 1);
        let options = take_dict(&mut frame);
        Ok(Cancel { request_id, options })
    }

    proof fn lemma_id() {
    }

    proof fn lemma_round_trip(self, w: Seq<Json>) {
        assert(holds(layout(MessageKind::Cancel)[0].1, self.wire_fields()[0]));
        lemma_encoded_decodes(
            MessageKind::Cancel,
            self.wire_fields(),
            self.wire_args(),
            self.wire_kwargs(),
            w,
        );
    }
}

} // verus!
