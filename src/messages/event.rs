use crate::error::Error;
use crate::frame::{
    args_at, check_frame, decode_fault, encoded, id_at, kwargs_at, lemma_encoded_decodes,
    push_payload, take_dict, take_payload,
};
use crate::json::Json;
use crate::kind::{holds, layout, MessageKind};
use crate::messages::WampMessage;
use vstd::prelude::*;

verus! {

/// Delivers a publication to a subscriber.
///
/// Wire form: `[36, subscription, publication, details, args?, kwargs?]`.
#[derive(Debug, PartialEq, Eq)]
pub struct Event {
    pub subscription: u64,
    pub publication: u64,
    pub details: Vec<(String, Json)>,
    pub args: Option<Vec<Json>>,
    pub kwargs: Option<Vec<(String, Json)>>,
}

impl WampMessage for Event {
    const ID: u64 = 36;

    open spec fn message_kind() -> MessageKind {
        MessageKind::Event
    }

    open spec fn wire_fields(&self) -> Seq<Json> {
        seq![
            Json::UInt(self.subscription),
            Json::UInt(self.publication),
            Json::Object(self.details),
        ]
    }

    open spec fn wire_args(&self) -> Option<Vec<Json>> {
        self.args
    }

    open spec fn wire_kwargs(&self) -> Option<Vec<(String, Json)>> {
        self.kwargs
    }

    open spec fn read_frame(frame: Seq<Json>) -> Event {
        Event {
            subscription: frame[1]->UInt_0,
            publication: frame[2]->UInt_0,
            details: frame[3]->Object_0,
            args: args_at(frame, 4),
            kwargs: kwargs_at(frame, 5),
        }
    }

    fn kind() -> (r: MessageKind) {
        MessageKind::Event
    }

    fn encode(self) -> (r: Vec<Json>) {
        let mut frame: Vec<Json> = Vec::new();
        frame.push(Json::UInt(MessageKind::Event.tag()));
        frame.push(Json::UInt(self.subscription));
        frame.push(Json::UInt(self.publication));
        frame.push(Json::Object(self.details));
        let ghost head = frame@;
        push_payload(&mut frame, self.args, self.kwargs);
        proof {
            assert(frame@.subrange(1, 4) =~= head.subrange(1, 4));
            assert(frame@[0] == frame@.subrange(0, 4)[0]);
            assert(frame@.subrange(1, 4) =~= self.wire_fields());
        }
        frame
    }

    fn decode(frame: Vec<Json>) -> (r: Result<Event, Error>) {
        let mut frame = frame;
        if let Err(e) = check_frame(MessageKind::Event, &frame) {
            return Err(e);
        }
        let ghost w = frame@;
        proof {
            assert(holds(layout(MessageKind::Event)[0].1, w[1]));
            assert(holds(layout(MessageKind::Event)[1].1, w[2]));
            assert(holds(layout(MessageKind::Event)[2].1, w[3]));
        }
        let subscription = id_at(&frame, 1);
        let publication = id_at(&frame, 2);
        let (args, kwargs) = take_payload(&mut frame, 4);
        let details = take_dict(&mut frame);
        Ok(Event { subscription, publication, details, args, kwargs })
    }

    proof fn lemma_id() {
    }

    proof fn lemma_round_trip(self, w: Seq<Json>) {
        assert(holds(layout(MessageKind::Event)[0].1, self.wire_fields()[0]));
        lemma_encoded_decodes(
            MessageKind::Event,
            self.wire_fields(),
            self.wire_args(),
            self.wire_kwargs(),
            w,
        );
    }
}

} // verus!
