use crate::error::Error;
use crate::factories::{increment, RequestIdCounter};
use crate::frame::{
    args_at, check_frame, decode_fault, encoded, id_at, kwargs_at, lemma_encoded_decodes,
    push_payload, take_dict, take_payload, take_text,
};
use crate::json::Json;
use crate::kind::{holds, layout, MessageKind};
use crate::messages::WampMessage;
use vstd::prelude::*;

verus! {

/// Publishes an event to a topic.
///
/// Wire form: `[16, request_id, options, topic, args?, kwargs?]`.
#[derive(Debug, PartialEq, Eq)]
pub struct Publish {
    pub request_id: u64,
    pub options: Vec<(String, Json)>,
    pub topic: String,
    pub args: Option<Vec<Json>>,
    pub kwargs: Option<Vec<(String, Json)>>,
}

impl Publish {
    /// Builds a publication to `topic`,
    /// stamped with a fresh request id from `ids`, with empty options and no payload.
    pub fn new(ids: &mut RequestIdCounter, topic: String) -> (r: Publish)
        requires
            old(ids).last < u64::MAX,
        ensures
            r.request_id == old(ids).last + 1,
            final(ids).last == r.request_id,
            r.topic == topic,
            r.options@.len() == 0,
            r.args is None,
            r.kwargs is None,
    {
        let request_id = increment(ids);
        Publish {
            request_id,
            options: Vec::new(),
            topic,
            args: None,
            kwargs: None,
        }
    }
}

impl WampMessage for Publish {
    const ID: u64 = 16;

    open spec fn message_kind() -> MessageKind {
        MessageKind::Publish
    }

    open spec fn wire_fields(&self) -> Seq<Json> {
        seq![Json::UInt(self.request_id), Json::Object(self.options), Json::Str(self.topic)]
    }

    open spec fn wire_args(&self) -> Option<Vec<Json>> {
        self.args
    }

    open spec fn wire_kwargs(&self) -> Option<Vec<(String, Json)>> {
        self.kwargs
    }

    open spec fn read_frame(frame: Seq<Json>) -> Publish {
        Publish {
            request_id: frame[1]->UInt_0,
            options: frame[2]->Object_0,
            topic: frame[3]->Str_0,
            args: args_at(frame, 4),
            kwargs: kwargs_at(frame, 5),
        }
    }

    fn kind() -> (r: MessageKind) {
        MessageKind::Publish
    }

    fn encode(self) -> (r: Vec<Json>) {
        let mut frame: Vec<Json> = Vec::new();
        frame.push(Json::UInt(MessageKind::Publish.tag()));
        frame.push(Json::UInt(self.request_id));
        frame.push(Json::Object(self.options));
        frame.push(Json::Str(self.topic));
        let ghost head = frame@;
        push_payload(&mut frame, self.args, self.kwargs);
        proof {
            assert(frame@.subrange(1, 4) =~= head.subrange(1, 4));
            assert(frame@[0] == frame@.subrange(0, 4)[0]);
            assert(frame@.subrange(1, 4) =~= self.wire_fields());
        }
        frame
    }

    fn decode(frame: Vec<Json>) -> (r: Result<Publish, Error>) {
        let mut frame = frame;
        if let Err(e) = check_frame(MessageKind::Publish, &frame) {
            return Err(e);
        }
        let ghost w = frame@;
        proof {
            assert(holds(layout(MessageKind::Publish)[0].1, w[1]));
            assert(holds(layout(MessageKind::Publish)[1].1, w[2]));
            assert(holds(layout(MessageKind::Publish)[2].1, w[3]));
        }
        let request_id = id_at(&frame, 1);
        let (args, kwargs) = take_payload(&mut frame, 4);
        let topic = take_text(&mut frame);
        let options = take_dict(&mut frame);
        Ok(Publish { request_id, options, topic, args, kwargs })
    }

    proof fn lemma_id() {
    }

    proof fn lemma_round_trip(self, w: Seq<Json>) {
        assert(holds(layout(MessageKind::Publish)[0].1, self.wire_fields()[0]));
        lemma_encoded_decodes(
            MessageKind::Publish,
            self.wire_fields(),
            self.wire_args(),
            self.wire_kwargs(),
            w,
        );
    }
}

} // verus!
