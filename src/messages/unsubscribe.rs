use crate::error::Error;
use crate::factories::{increment, RequestIdCounter};
use crate::frame::{check_frame, decode_fault, encoded, id_at, lemma_encoded_decodes};
use crate::json::Json;
use crate::kind::{holds, layout, MessageKind};
use crate::messages::WampMessage;
use vstd::prelude::*;

verus! {

/// Ends a subscription.
///
/// Wire form: `[34, request_id, subscription]`.
#[derive(Debug, PartialEq, Eq)]
pub struct Unsubscribe {
    pub request_id: u64,
    pub subscription: u64,
}

impl Unsubscribe {
    /// Builds the end of `subscription`,
    /// stamped with a fresh request id from `ids`.
    pub fn new(ids: &mut RequestIdCounter, subscription: u64) -> (r: Unsubscribe)
        requires
            old(ids).last < u64::MAX,
        ensures
            r.request_id == old(ids).last + 1,
            final(ids).last == r.request_id,
            r.subscription == subscription,
    {
        let request_id = increment(ids);
        Unsubscribe {
            request_id,
            subscription,
        }
    }
}

impl WampMessage for Unsubscribe {
    const ID: u64 = 34;

    open spec fn message_kind() -> MessageKind {
        MessageKind::Unsubscribe
    }

    open spec fn wire_fields(&self) -> Seq<Json> {
        seq![Json::UInt(self.request_id), Json::UInt(self.subscription)]
    }

    open spec fn wire_args(&self) -> Option<Vec<Json>> {
        None
    }

    open spec fn wire_kwargs(&self) -> Option<Vec<(String, Json)>> {
        None
    }

    open spec fn read_frame(frame: Seq<Json>) -> Unsubscribe {
        Unsubscribe {
            request_id: frame[1]->UInt_0,
            subscription: frame[2]->UInt_0,
        }
    }

    fn kind() -> (r: MessageKind) {
        MessageKind::Unsubscribe
    }

    fn encode(self) -> (r: Vec<Json>) {
        let mut frame: Vec<Json> = Vec::new();
        frame.push(Json::UInt(MessageKind::Unsubscribe.tag()));
        frame.push(Json::UInt(self.request_id));
        frame.push(Json::UInt(self.subscription));
        proof {
            assert(frame@.subrange(3, 3) =~= Seq::<Json>::empty());
            assert(frame@.subrange(1, 3) =~= self.wire_fields());
        }
        frame
    }

    fn decode(frame: Vec<Json>) -> (r: Result<Unsubscribe, Error>) {
        let mut frame = frame;
        if let Err(e) = check_frame(MessageKind::Unsubscribe, &frame) {
            return Err(e);
        }
        let ghost w = frame@;
        proof {
            assert(holds(layout(MessageKind::Unsubscribe)[0].1, w[1]));
            assert(holds(layout(MessageKind::Unsubscribe)[1].1, w[2]));
        }
        let request_id = id_at(&frame, 1);
        let subscription = id_at(&frame, 2);
        Ok(Unsubscribe { request_id, subscription })
    }

    proof fn lemma_id() {
    }

    proof fn lemma_round_trip(self, w: Seq<Json>) {
        assert(holds(layout(MessageKind::Unsubscribe)[0].1, self.wire_fields()[0]));
        lemma_encoded_decodes(
            MessageKind::Unsubscribe,
            self.wire_fields(),
            self.wire_args(),
            self.wire_kwargs(),
            w,
        );
    }
}

} // verus!
