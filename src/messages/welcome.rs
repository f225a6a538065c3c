use crate::error::Error;
use crate::frame::{check_frame, decode_fault, encoded, id_at, lemma_encoded_decodes, take_dict};
use crate::json::Json;
use crate::kind::{holds, layout, MessageKind};
use crate::messages::WampMessage;
use vstd::prelude::*;

verus! {

/// Accepts a session; sent by the router.
///
/// Wire form: `[2, session, details]`.
#[derive(Debug, PartialEq, Eq)]
pub struct Welcome {
    pub session: u64,
    pub details: Vec<(String, Json)>,
}

impl WampMessage for Welcome {
    const ID: u64 = 2;

    open spec fn message_kind() -> MessageKind {
        MessageKind::Welcome
    }

    open spec fn wire_fields(&self) -> Seq<Json> {
        seq![Json::UInt(self.session), Json::Object(self.details)]
    }

    open spec fn wire_args(&self) -> Option<Vec<Json>> {
        None
    }

    open spec fn wire_kwargs(&self) -> Option<Vec<(String, Json)>> {
        None
    }

    open spec fn read_frame(frame: Seq<Json>) -> Welcome {
        Welcome {
            session: frame[1]->UInt_0,
            details: frame[2]->Object_0,
        }
    }

    fn kind() -> (r: MessageKind) {
        MessageKind::Welcome
    }

    fn encode(self) -> (r: Vec<Json>) {
        let mut frame: Vec<Json> = Vec::new();
        frame.push(Json::UInt(MessageKind::Welcome.tag()));
        frame.push(Json::UInt(self.session));
        frame.push(Json::Object(self.details));
        proof {
            assert(frame@.subrange(3, 3) =~= Seq::<Json>::empty());
            assert(frame@.subrange(1, 3) =~= self.wire_fields());
        }
        frame
    }

    fn decode(frame: Vec<Json>) -> (r: Result<Welcome, Error>) {
        let mut frame = frame;
        if let Err(e) = check_frame(MessageKind::Welcome, &frame) {
            return Err(e);
        }
        let ghost w = frame@;
        proof {
            assert(holds(layout(MessageKind::Welcome)[0].1, w[1]));
            assert(holds(layout(MessageKind::Welcome)[1].1, w[2]));
        }
        let session = id_at(&frame, 1);
        let details = take_dict(&mut frame);
        Ok(Welcome { session, details })
    }

    proof fn lemma_id() {
    }

    proof fn lemma_round_trip(self, w: Seq<Json>) {
        assert(holds(layout(MessageKind::Welcome)[0].1, self.wire_fields()[0]));
        lemma_encoded_decodes(
            MessageKind::Welcome,
            self.wire_fields(),
            self.wire_args(),
            self.wire_kwargs(),
            w,
        );
    }
}

} // verus!
