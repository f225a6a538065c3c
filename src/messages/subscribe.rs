use crate::error::Error;
use crate::factories::{increment, RequestIdCounter};
use crate::frame::{
    check_frame, decode_fault, encoded, id_at, lemma_encoded_decodes, take_dict, take_text,
};
use crate::json::Json;
use crate::kind::{holds, layout, MessageKind};
use crate::messages::WampMessage;
use vstd::prelude::*;

verus! {

/// Subscribes to a topic.
///
/// Wire form: `[32, request_id, options, topic]`.
#[derive(Debug, PartialEq, Eq)]
pub struct Subscribe {
    pub request_id: u64,
    pub options: Vec<(String, Json)>,
    pub topic: String,
}

impl Subscribe {
    /// Builds a subscription to `topic`,
    /// stamped with a fresh request id from `ids`, with empty options.
    pub fn new(ids: &mut RequestIdCounter, topic: String) -> (r: Subscribe)
        requires
            old(ids).last < u64::MAX,
        ensures
            r.request_id == old(ids).last + 1,
            final(ids).last == r.request_id,
            r.topic == topic,
            r.options@.len() == 0,
    {
        let request_id = increment(ids);
        Subscribe {
            request_id,
            options: Vec::new(),
            topic,
        }
    }
}

impl WampMessage for Subscribe {
    const ID: u64 = 32;

    open spec fn message_kind() -> MessageKind {
        MessageKind::Subscribe
    }

    open spec fn wire_fields(&self) -> Seq<Json> {
        seq![Json::UInt(self.request_id), Json::Object(self.options), Json::Str(self.topic)]
    }

    open spec fn wire_args(&self) -> Option<Vec<Json>> {
        None
    }

    open spec fn wire_kwargs(&self) -> Option<Vec<(String, Json)>> {
        None
    }

    open spec fn read_frame(frame: Seq<Json>) -> Subscribe {
        Subscribe {
            request_id: frame[1]->UInt_0,
            options: frame[2]->Object_0,
            topic: frame[3]->Str_0,
        }
    }

    fn kind() -> (r: MessageKind) {
        MessageKind::Subscribe
    }

    fn encode(self) -> (r: Vec<Json>) {
        let mut frame: Vec<Json> = Vec::new();
        frame.push(Json::UInt(MessageKind::Subscribe.tag()));
        frame.push(Json::UInt(self.request_id));
        frame.push(Json::Object(self.options));
        frame.push(Json::Str(self.topic));
        proof {
            assert(frame@.subrange(4, 4) =~= Seq::<Json>::empty());
            assert(frame@.subrange(1, 4) =~= self.wire_fields());
        }
        frame
    }

    fn decode(frame: Vec<Json>) -> (r: Result<Subscribe, Error>) {
        let mut frame = frame;
        if let Err(e) = check_frame(MessageKind::Subscribe, &frame) {
            return Err(e);
        }
        let ghost w = frame@;
        proof {
            assert(holds(layout(MessageKind::Subscribe)[0].1, w[1]));
            assert(holds(layout(MessageKind::Subscribe)[1].1, w[2]));
            assert(holds(layout(MessageKind::Subscribe)[2].1, w[3]));
        }
        let request_id = id_at(&frame, 1);
        let topic = take_text(&mut frame);
        let options = take_dict(&mut frame);
        Ok(Subscribe { request_id, options, topic })
    }

    proof fn lemma_id() {
    }

    proof fn lemma_round_trip(self, w: Seq<Json>) {
        assert(holds(layout(MessageKind::Subscribe)[0].1, self.wire_fields()[0]));
        lemma_encoded_decodes(
            MessageKind::Subscribe,
            self.wire_fields(),
            self.wire_args(),
            self.wire_kwargs(),
            w,
        );
    }
}

} // verus!
