use crate::error::Error;
use crate::frame::{check_frame, decode_fault, encoded, lemma_encoded_decodes, take_dict, take_text};
use crate::json::Json;
use crate::kind::{holds, layout, MessageKind};
use crate::messages::WampMessage;
use vstd::prelude::*;

verus! {

/// Closes an established session.
///
/// Wire form: `[6, details, reason]`.
#[derive(Debug, PartialEq, Eq)]
pub struct Goodbye {
    pub details: Vec<(String, Json)>,
    pub reason: String,
}

impl WampMessage for Goodbye {
    const ID: u64 = 6;

    open spec fn message_kind() -> MessageKind {
        MessageKind::Goodbye
    }

    open spec fn wire_fields(&self) -> Seq<Json> {
        seq![Json::Object(self.details), Json::Str(self.reason)]
    }

    open spec fn wire_args(&self) -> Option<Vec<Json>> {
        None
    }

    open spec fn wire_kwargs(&self) -> Option<Vec<(String, Json)>> {
        None
    }

    open spec fn read_frame(frame: Seq<Json>) -> Goodbye {
        Goodbye {
            details: frame[1]->Object_0,
            reason: frame[2]->Str_0,
        }
    }

    fn kind() -> (r: MessageKind) {
        MessageKind::Goodbye
    }

    fn encode(self) -> (r: Vec<Json>) {
        let mut frame: Vec<Json> = Vec::new();
        frame.push(Json::UInt(MessageKind::Goodbye.tag()));
        frame.push(Json::Object(self.details));
        frame.push(Json::Str(self.reason));
        proof {
            assert(frame@.subrange(3, 3) =~= Seq::<Json>::empty());
            assert(frame@.subrange(1, 3) =~= self.wire_fields());
        }
        frame
    }

    fn decode(frame: Vec<Json>) -> (r: Result<Goodbye, Error>) {
        let mut frame = frame;
        if let Err(e) = check_frame(MessageKind::Goodbye, &frame) {
            return Err(e);
        }
        let ghost w = frame@;
        proof {
            assert(holds(layout(MessageKind::Goodbye)[0].1, w[1]));
            assert(holds(layout(MessageKind::Goodbye)[1].1, w[2]));
        }
        let reason = take_text(&mut frame);
        let details = take_dict(&mut frame);
        Ok(Goodbye { details, reason })
    }

    proof fn lemma_id() {
    }

    proof fn lemma_round_trip(self, w: Seq<Json>) {
        assert(holds(layout(MessageKind::Goodbye)[0].1, self.wire_fields()[0]));
        lemma_encoded_decodes(
            MessageKind::Goodbye,
            self.wire_fields(),
            self.wire_args(),
            self.wire_kwargs(),
            w,
        );
    }
}

} // verus!
