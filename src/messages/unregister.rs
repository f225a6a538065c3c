use crate::error::Error;
use crate::factories::{increment, RequestIdCounter};
use crate::frame::{check_frame, decode_fault, encoded, id_at, lemma_encoded_decodes};
use crate::json::Json;
use crate::kind::{holds, layout, MessageKind};
use crate::messages::WampMessage;
use vstd::prelude::*;

verus! {

/// Withdraws a registration.
///
/// Wire form: `[66, request_id, registration]`.
#[derive(Debug, PartialEq, Eq)]
pub struct Unregister {
    pub request_id: u64,
    pub registration: u64,
}

impl Unregister {
    /// Builds the withdrawal of `registration`,
    /// stamped with a fresh request id from `ids`.
    pub fn new(ids: &mut RequestIdCounter, registration: u64) -> (r: Unregister)
        requires
            old(ids).last < u64::MAX,
        ensures
            r.request_id == old(ids).last + 1,
            final(ids).last == r.request_id,
            r.registration == registration,
    {
        let request_id = increment(ids);
        Unregister {
            request_id,
            registration,
        }
    }
}

impl WampMessage for Unregister {
    const ID: u64 = 66;

    open spec fn message_kind() -> MessageKind {
        MessageKind::Unregister
    }

    open spec fn wire_fields(&self) -> Seq<Json> {
        seq![Json::UInt(self.request_id), Json::UInt(self.registration)]
    }

    open spec fn wire_args(&self) -> Option<Vec<Json>> {
        None
    }

    open spec fn wire_kwargs(&self) -> Option<Vec<(String, Json)>> {
        None
    }

    open spec fn read_frame(frame: Seq<Json>) -> Unregister {
        Unregister {
            request_id: frame[1]->UInt_0,
            registration: frame[2]->UInt_0,
        }
    }

    fn kind() -> (r: MessageKind) {
        MessageKind::Unregister
    }

    fn encode(self) -> (r: Vec<Json>) {
        let mut frame: Vec<Json> = Vec::new();
        frame.push(Json::UInt(MessageKind::Unregister.tag()));
        frame.push(Json::UInt(self.request_id));
        frame.push(Json::UInt(self.registration));
        proof {
            assert(frame@.subrange(3, 3) =~= Seq::<Json>::empty());
            assert(frame@.subrange(1, 3) =~= self.wire_fields());
        }
        frame
    }

    fn decode(frame: Vec<Json>) -> (r: Result<Unregister, Error>) {
        let mut frame = frame;
        if let Err(e) = check_frame(MessageKind::Unregister, &frame) {
            return Err(e);
        }
        let ghost w = frame@;
        proof {
            assert(holds(layout(MessageKind::Unregister)[0].1, w[1]));
            assert(holds(layout(MessageKind::Unregister)[1].1, w[2]));
        }
        let request_id = id_at(&frame, 1);
        let registration = id_at(&frame, 2);
        Ok(Unregister { request_id, registration })
    }

    proof fn lemma_id() {
    }

    proof fn lemma_round_trip(self, w: Seq<Json>) {
        assert(holds(layout(MessageKind::Unregister)[0].1, self.wire_fields()[0]));
        lemma_encoded_decodes(
            MessageKind::Unregister,
            self.wire_fields(),
            self.wire_args(),
            self.wire_kwargs(),
            w,
        );
    }
}

} // verus!
