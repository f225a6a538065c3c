use crate::error::Error;
use crate::frame::{check_frame, decode_fault, encoded, lemma_encoded_decodes, take_dict, take_text};
use crate::json::Json;
use crate::kind::{holds, layout, MessageKind};
use crate::messages::WampMessage;
use vstd::prelude::*;

verus! {

/// Opens a session on a realm.
///
/// Wire form: `[1, realm, details]`.
#[derive(Debug, PartialEq, Eq)]
pub struct Hello {
    pub realm: String,
    pub details: Vec<(String, Json)>,
}

impl WampMessage for Hello {
    const ID: u64 = 1;

    open spec fn message_kind() -> MessageKind {
        MessageKind::Hello
    }

    open spec fn wire_fields(&self) -> Seq<Json> {
        seq![Json::Str(self.realm), Json::Object(self.details)]
    }

    open spec fn wire_args(&self) -> Option<Vec<Json>> {
        None
    }

    open spec fn wire_kwargs(&self) -> Option<Vec<(String, Json)>> {
        None
    }

    open spec fn read_frame(frame: Seq<Json>) -> Hello {
        Hello {
            realm: frame[1]->Str_0,
            details: frame[2]->Object_0,
        }
    }

    fn kind() -> (r: MessageKind) {
        MessageKind::Hello
    }

    fn encode(self) -> (r: Vec<Json>) {
        let mut frame: Vec<Json> = Vec::new();
        frame.push(Json::UInt(MessageKind::Hello.tag()));
        frame.push(Json::Str(self.realm));
        frame.push(Json::Object(self.details));
        proof {
            assert(frame@.subrange(3, 3) =~= Seq::<Json>::empty());
            assert(frame@.subrange(1, 3) =~= self.wire_fields());
        }
        frame
    }

    fn decode(frame: Vec<Json>) -> (r: Result<Hello, Error>) {
        let mut frame = frame;
        if let Err(e) = check_frame(MessageKind::Hello, &frame) {
            return Err(e);
        }
        let ghost w = frame@;
        proof {
            assert(holds(layout(MessageKind::Hello)[0].1, w[1]));
            assert(holds(layout(MessageKind::Hello)[1].1, w[2]));
        }
        let details = take_dict(&mut frame);
        let realm = take_text(&mut frame);
        Ok(Hello { realm, details })
    }

    proof fn lemma_id() {
    }

    proof fn lemma_round_trip(self, w: Seq<Json>) {
        assert(holds(layout(MessageKind::Hello)[0].1, self.wire_fields()[0]));
        lemma_encoded_decodes(
            MessageKind::Hello,
            self.wire_fields(),
            self.wire_args(),
            self.wire_kwargs(),
            w,
        );
    }
}

} // verus!
