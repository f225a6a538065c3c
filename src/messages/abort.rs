use crate::error::Error;
use crate::frame::{check_frame, decode_fault, encoded, lemma_encoded_decodes, take_dict, take_text};
use crate::json::Json;
use crate::kind::{holds, layout, MessageKind};
use crate::messages::WampMessage;
use vstd::prelude::*;

verus! {

/// Refuses or ends the opening of a session.
///
/// Wire form: `[3, details, reason]`.
#[derive(Debug, PartialEq, Eq)]
pub struct Abort {
    pub details: Vec<(String, Json)>,
    pub reason: String,
}

impl WampMessage for Abort {
    const ID: u64 = 3;

    open spec fn message_kind() -> MessageKind {
        MessageKind::Abort
    }

    open spec fn wire_fields(&self) -> Seq<Json> {
        seq![Json::Object(self.details), Json::Str(self.reason)]
    }

    open spec fn wire_args(&self) -> Option<Vec<Json>> {
        None
    }

    open spec fn wire_kwargs(&self) -> Option<Vec<(String, Json)>> {
        None
    }

    open spec fn read_frame(frame: Seq<Json>) -> Abort {
        Abort {
            details: frame[1]->Object_0,
            reason: frame[2]->Str_0,
        }
    }

    fn kind() -> (r: MessageKind) {
        MessageKind::Abort
    }

    fn encode(self) -> (r: Vec<Json>) {
        let mut frame: Vec<Json> = Vec::new();
        frame.push(Json::UInt(MessageKind::Abort.tag()));
        frame.push(Json::Object(self.details));
        frame.push(Json::Str(self.reason));
        proof {
            assert(frame@.subrange(3, 3) =~= Seq::<Json>::empty());
            assert(frame@.subrange(1, 3) =~= self.wire_fields());
        }
        frame
    }

    fn decode(frame: Vec<Json>) -> (r: Result<Abort, Error>) {
        let mut frame = frame;
        if let Err(e) = check_frame(MessageKind::Abort, &frame) {
            return Err(e);
        }
        let ghost w = frame@;
        proof {
            assert(holds(layout(MessageKind::Abort)[0].1, w[1]));
            assert(holds(layout(MessageKind::Abort)[1].1, w[2]));
        }
        let reason = take_text(&mut frame);
        let details = take_dict(&mut frame);
        Ok(Abort { details, reason })
    }

    proof fn lemma_id() {
    }

    proof fn lemma_round_trip(self, w: Seq<Json>) {
        assert(holds(layout(MessageKind::Abort)[0].1, self.wire_fields()[0]));
        lemma_encoded_decodes(
            MessageKind::Abort,
            self.wire_fields(),
            self.wire_args(),
            self.wire_kwargs(),
            w,
        );
    }
}

} // verus!
