use crate::error::Error;
use crate::factories::{increment, RequestIdCounter};
use crate::frame::{
    check_frame, decode_fault, encoded, id_at, lemma_encoded_decodes, take_dict, take_text,
};
use crate::json::Json;
use crate::kind::{holds, layout, MessageKind};
use crate::messages::WampMessage;
use vstd::prelude::*;

verus! {

/// Registers a procedure to be called.
///
/// Wire form: `[64, request_id, options, procedure]`.
#[derive(Debug, PartialEq, Eq)]
pub struct Register {
    pub request_id: u64,
    pub options: Vec<(String, Json)>,
    pub procedure: String,
}

impl Register {
    /// Builds a registration of `procedure`,
    /// stamped with a fresh request id from `ids`, with empty options.
    pub fn new(ids: &mut RequestIdCounter, procedure: String) -> (r: Register)
        requires
            old(ids).last < u64::MAX,
        ensures
            r.request_id == old(ids).last + 1,
            final(ids).last == r.request_id,
            r.procedure == procedure,
            r.options@.len() == 0,
    {
        let request_id = increment(ids);
        Register {
            request_id,
            options: Vec::new(),
            procedure,
        }
    }
}

impl WampMessage for Register {
    const ID: u64 = 64;

    open spec fn message_kind() -> MessageKind {
        MessageKind::Register
    }

    open spec fn wire_fields(&self) -> Seq<Json> {
        seq![Json::UInt(self.request_id), Json::Object(self.options), Json::Str(self.procedure)]
    }

    open spec fn wire_args(&self) -> Option<Vec<Json>> {
        None
    }

    open spec fn wire_kwargs(&self) -> Option<Vec<(String, Json)>> {
        None
    }

    open spec fn read_frame(frame: Seq<Json>) -> Register {
        Register {
            request_id: frame[1]->UInt_0,
            options: frame[2]->Object_0,
            procedure: frame[3]->Str_0,
        }
    }

    fn kind() -> (r: MessageKind) {
        MessageKind::Register
    }

    fn encode(self) -> (r: Vec<Json>) {
        let mut frame: Vec<Json> = Vec::new();
        frame.push(Json::UInt(MessageKind::Register.tag()));
        frame.push(Json::UInt(self.request_id));
        frame.push(Json::Object(self.options));
        frame.push(Json::Str(self.procedure));
        proof {
            assert(frame@.subrange(4, 4) =~= Seq::<Json>::empty());
            assert(frame@.subrange(1, 4) =~= self.wire_fields());
        }
        frame
    }

    fn decode(frame: Vec<Json>) -> (r: Result<Register, Error>) {
        let mut frame = frame;
        if let Err(e) = check_frame(MessageKind::Register, &frame) {
            return Err(e);
        }
        let ghost w = frame@;
        proof {
            assert(holds(layout(MessageKind::Register)[0].1, w[1]));
            assert(holds(layout(MessageKind::Register)[1].1, w[2]));
            assert(holds(layout(MessageKind::Register)[2].1, w[3]));
        }
        let request_id = id_at(&frame, 1);
        let procedure = take_text(&mut frame);
        let options = take_dict(&mut frame);
        Ok(Register { request_id, options, procedure })
    }

    proof fn lemma_id() {
    }

    proof fn lemma_round_trip(self, w: Seq<Json>) {
        assert(holds(layout(MessageKind::Register)[0].1, self.wire_fields()[0]));
        lemma_encoded_decodes(
            MessageKind::Register,
            self.wire_fields(),
            self.wire_args(),
            self.wire_kwargs(),
            w,
        );
    }
}

} // verus!
