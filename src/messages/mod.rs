//! The message types and their common codec interface.
use crate::error::{Error, Malformation};
use crate::frame::{decode_fault, encoded};
use crate::json::Json;
use crate::kind::{kind_of_tag_spec, lemma_kind_of_own_tag, tag, MessageKind};
use crate::roles::{direction, may_receive, may_send, MessageDirection, Roles};
use vstd::prelude::*;

pub mod abort;
pub mod authenticate;
pub mod call;
pub mod cancel;
pub mod challenge;
pub mod error;
pub mod event;
pub mod goodbye;
pub mod hello;
pub mod interrupt;
pub mod invocation;
pub mod publish;
pub mod published;
pub mod register;
pub mod registered;
pub mod result;
pub mod subscribe;
pub mod subscribed;
pub mod unregister;
pub mod unregistered;
pub mod unsubscribe;
pub mod unsubscribed;
pub mod welcome;
pub mod yield_message;

pub use abort::Abort;
pub use authenticate::Authenticate;
pub use call::Call;
pub use cancel::Cancel;
pub use challenge::Challenge;
pub use error::{WampError, WampErrorEvent};
pub use event::Event;
pub use goodbye::Goodbye;
pub use hello::Hello;
pub use interrupt::Interrupt;
pub use invocation::Invocation;
pub use publish::Publish;
pub use published::Published;
pub use yield_message::Yield;
pub use register::Register;
pub use registered::Registered;
pub use result::WampResult;
pub use subscribe::Subscribe;
pub use subscribed::Subscribed;
pub use unregister::Unregister;
pub use unregistered::Unregistered;
pub use unsubscribe::Unsubscribe;
pub use unsubscribed::Unsubscribed;
pub use welcome::Welcome;

verus! {

/// A message type with a fixed tag and positional wire layout.
pub trait WampMessage: Sized {
    /// The wire tag of the message type.
    const ID: u64;

    /// The message type.
    spec fn message_kind() -> MessageKind;

    /// The required values of this message after the tag, in wire order.
    spec fn wire_fields(&self) -> Seq<Json>;

    /// The optional positional payload; always absent for types without one.
    spec fn wire_args(&self) -> Option<Vec<Json>>;

    /// The optional named payload; always absent for types without one.
    spec fn wire_kwargs(&self) -> Option<Vec<(String, Json)>>;

    /// The message read from a frame that is well formed for this type.
    spec fn read_frame(frame: Seq<Json>) -> Self;

    /// The wire tag is the tag of the message type.
    proof fn lemma_id()
        ensures
            Self::ID == tag(Self::message_kind()),
    ;

    /// The message type.
    fn kind() -> (r: MessageKind)
        ensures
            r == Self::message_kind(),
    ;

    /// Whether `role` may receive and whether it may send this message type.
    fn direction(role: Roles) -> (r: MessageDirection)
        ensures
            r.sends == may_send(role, Self::message_kind()),
            r.receives == may_receive(role, Self::message_kind()),
    {
        direction(role, Self::kind())
    }

    /// The wire frame of this message: the tag, the required values, then
    /// `args` and `kwargs` as far as they are present.
    fn encode(self) -> (r: Vec<Json>)
        ensures
            encoded(
                Self::message_kind(),
                self.wire_fields(),
                self.wire_args(),
                self.wire_kwargs(),
                r@,
            ),
    ;

    /// The message held by `frame`, or the first fault found reading it from
    /// the front.
    fn decode(frame: Vec<Json>) -> (r: Result<Self, Error>)
        ensures
            r == match decode_fault(Self::message_kind(), frame@) {
                Some(e) => Err(e),
                None => Ok(Self::read_frame(frame@)),
            },
    ;

    /// Decoding the frame of a message gives the message back, unless the
    /// encoder stood an empty array in for absent `args`.
    proof fn lemma_round_trip(self, w: Seq<Json>)
        requires
            encoded(
                Self::message_kind(),
                self.wire_fields(),
                self.wire_args(),
                self.wire_kwargs(),
                w,
            ),
            self.wire_args() is Some || self.wire_kwargs() is None,
        ensures
            decode_fault(Self::message_kind(), w) is None,
            Self::read_frame(w) == self,
    ;
}

/// Any message: one of the known types, or an extension message kept as the
/// frame it arrived in.
#[derive(Debug, PartialEq, Eq)]
pub enum Messages {
    Abort(Abort),
    Authenticate(Authenticate),
    Call(Call),
    Cancel(Cancel),
    Challenge(Challenge),
    Error(WampError),
    Event(Event),
    Goodbye(Goodbye),
    Hello(Hello),
    Interrupt(Interrupt),
    Invocation(Invocation),
    Publish(Publish),
    Published(Published),
    Register(Register),
    Registered(Registered),
    Result(WampResult),
    Subscribe(Subscribe),
    Subscribed(Subscribed),
    Unregister(Unregister),
    Unregistered(Unregistered),
    Unsubscribe(Unsubscribe),
    Unsubscribed(Unsubscribed),
    Welcome(Welcome),
    Yield(Yield),
    Extension(Vec<Json>),
}

/// `w` is the frame of the message `m`.
pub open spec fn frame_of<M: WampMessage>(m: M, w: Seq<Json>) -> bool {
    encoded(M::message_kind(), m.wire_fields(), m.wire_args(), m.wire_kwargs(), w)
}

/// `m` has `kwargs` but no `args`, so its frame carries an empty array in
/// place of `args`.
pub open spec fn stands_in_args<M: WampMessage>(m: M) -> bool {
    m.wire_args() is None && m.wire_kwargs() is Some
}

impl Messages {
    /// The known type of this message; `None` for an extension message.
    pub open spec fn kind_of(self) -> Option<MessageKind> {
        match self {
            Messages::Abort(_) => Some(MessageKind::Abort),
            Messages::Authenticate(_) => Some(MessageKind::Authenticate),
            Messages::Call(_) => Some(MessageKind::Call),
            Messages::Cancel(_) => Some(MessageKind::Cancel),
            Messages::Challenge(_) => Some(MessageKind::Challenge),
            Messages::Error(_) => Some(MessageKind::Error),
            Messages::Event(_) => Some(MessageKind::Event),
            Messages::Goodbye(_) => Some(MessageKind::Goodbye),
            Messages::Hello(_) => Some(MessageKind::Hello),
            Messages::Interrupt(_) => Some(MessageKind::Interrupt),
            Messages::Invocation(_) => Some(MessageKind::Invocation),
            Messages::Publish(_) => Some(MessageKind::Publish),
            Messages::Published(_) => Some(MessageKind::Published),
            Messages::Register(_) => Some(MessageKind::Register),
            Messages::Registered(_) => Some(MessageKind::Registered),
            Messages::Result(_) => Some(MessageKind::Result),
            Messages::Subscribe(_) => Some(MessageKind::Subscribe),
            Messages::Subscribed(_) => Some(MessageKind::Subscribed),
            Messages::Unregister(_) => Some(MessageKind::Unregister),
            Messages::Unregistered(_) => Some(MessageKind::Unregistered),
            Messages::Unsubscribe(_) => Some(MessageKind::Unsubscribe),
            Messages::Unsubscribed(_) => Some(MessageKind::Unsubscribed),
            Messages::Welcome(_) => Some(MessageKind::Welcome),
            Messages::Yield(_) => Some(MessageKind::Yield),
            Messages::Extension(_) => None,
        }
    }

    /// The tag of this message: the type's tag for a known type, and for an
    /// extension message its first element if that is an unsigned integer.
    pub open spec fn id_spec(self) -> Option<u64> {
        match self {
            Messages::Extension(v) => if v@.len() > 0 && v@[0] is UInt {
                Some(v@[0]->UInt_0)
            } else {
                None
            },
            _ => Some(tag(self.kind_of()->Some_0)),
        }
    }

    /// The message of known type `kind` read from a frame well formed for it.
    pub open spec fn read_known(kind: MessageKind, w: Seq<Json>) -> Messages {
        match kind {
            MessageKind::Abort => Messages::Abort(Abort::read_frame(w)),
            MessageKind::Authenticate => Messages::Authenticate(Authenticate::read_frame(w)),
            MessageKind::Call => Messages::Call(Call::read_frame(w)),
            MessageKind::Cancel => Messages::Cancel(Cancel::read_frame(w)),
            MessageKind::Challenge => Messages::Challenge(Challenge::read_frame(w)),
            MessageKind::Error => Messages::Error(WampError::read_frame(w)),
            MessageKind::Event => Messages::Event(Event::read_frame(w)),
            MessageKind::Goodbye => Messages::Goodbye(Goodbye::read_frame(w)),
            MessageKind::Hello => Messages::Hello(Hello::read_frame(w)),
            MessageKind::Interrupt => Messages::Interrupt(Interrupt::read_frame(w)),
            MessageKind::Invocation => Messages::Invocation(Invocation::read_frame(w)),
            MessageKind::Publish => Messages::Publish(Publish::read_frame(w)),
            MessageKind::Published => Messages::Published(Published::read_frame(w)),
            MessageKind::Register => Messages::Register(Register::read_frame(w)),
            MessageKind::Registered => Messages::Registered(Registered::read_frame(w)),
            MessageKind::Result => Messages::Result(WampResult::read_frame(w)),
            MessageKind::Subscribe => Messages::Subscribe(Subscribe::read_frame(w)),
            MessageKind::Subscribed => Messages::Subscribed(Subscribed::read_frame(w)),
            MessageKind::Unregister => Messages::Unregister(Unregister::read_frame(w)),
            MessageKind::Unregistered => Messages::Unregistered(Unregistered::read_frame(w)),
            MessageKind::Unsubscribe => Messages::Unsubscribe(Unsubscribe::read_frame(w)),
            MessageKind::Unsubscribed => Messages::Unsubscribed(Unsubscribed::read_frame(w)),
            MessageKind::Welcome => Messages::Welcome(Welcome::read_frame(w)),
            MessageKind::Yield => Messages::Yield(Yield::read_frame(w)),
        }
    }

    /// What decoding `frame` gives: a known type is decoded by its own
    /// decoder; an integer tag that no known type uses gives an extension
    /// message holding the frame unchanged.
    pub open spec fn decoded(frame: Vec<Json>) -> Result<Messages, Error> {
        let w = frame@;
        if w.len() == 0 {
            Err(Error::Malformed(Malformation::NoTag))
        } else if !(w[0] is UInt) {
            Err(Error::Malformed(Malformation::TagNotInteger))
        } else {
            match kind_of_tag_spec(w[0]->UInt_0) {
                None => Ok(Messages::Extension(frame)),
                Some(kind) => match decode_fault(kind, w) {
                    Some(e) => Err(e),
                    None => Ok(Messages::read_known(kind, w)),
                },
            }
        }
    }

    /// `w` is the frame of this message.
    pub open spec fn encodes_to(self, w: Vec<Json>) -> bool {
        match self {
            Messages::Abort(m) => frame_of(m, w@),
            Messages::Authenticate(m) => frame_of(m, w@),
            Messages::Call(m) => frame_of(m, w@),
            Messages::Cancel(m) => frame_of(m, w@),
            Messages::Challenge(m) => frame_of(m, w@),
            Messages::Error(m) => frame_of(m, w@),
            Messages::Event(m) => frame_of(m, w@),
            Messages::Goodbye(m) => frame_of(m, w@),
            Messages::Hello(m) => frame_of(m, w@),
            Messages::Interrupt(m) => frame_of(m, w@),
            Messages::Invocation(m) => frame_of(m, w@),
            Messages::Publish(m) => frame_of(m, w@),
            Messages::Published(m) => frame_of(m, w@),
            Messages::Register(m) => frame_of(m, w@),
            Messages::Registered(m) => frame_of(m, w@),
            Messages::Result(m) => frame_of(m, w@),
            Messages::Subscribe(m) => frame_of(m, w@),
            Messages::Subscribed(m) => frame_of(m, w@),
            Messages::Unregister(m) => frame_of(m, w@),
            Messages::Unregistered(m) => frame_of(m, w@),
            Messages::Unsubscribe(m) => frame_of(m, w@),
            Messages::Unsubscribed(m) => frame_of(m, w@),
            Messages::Welcome(m) => frame_of(m, w@),
            Messages::Yield(m) => frame_of(m, w@),
            Messages::Extension(v) => w == v,
        }
    }

    /// This message has `kwargs` but no `args`.
    pub open spec fn stands_in_args(self) -> bool {
        match self {
            Messages::Abort(m) => stands_in_args(m),
            Messages::Authenticate(m) => stands_in_args(m),
            Messages::Call(m) => stands_in_args(m),
            Messages::Cancel(m) => stands_in_args(m),
            Messages::Challenge(m) => stands_in_args(m),
            Messages::Error(m) => stands_in_args(m),
            Messages::Event(m) => stands_in_args(m),
            Messages::Goodbye(m) => stands_in_args(m),
            Messages::Hello(m) => stands_in_args(m),
            Messages::Interrupt(m) => stands_in_args(m),
            Messages::Invocation(m) => stands_in_args(m),
            Messages::Publish(m) => stands_in_args(m),
            Messages::Published(m) => stands_in_args(m),
            Messages::Register(m) => stands_in_args(m),
            Messages::Registered(m) => stands_in_args(m),
            Messages::Result(m) => stands_in_args(m),
            Messages::Subscribe(m) => stands_in_args(m),
            Messages::Subscribed(m) => stands_in_args(m),
            Messages::Unregister(m) => stands_in_args(m),
            Messages::Unregistered(m) => stands_in_args(m),
            Messages::Unsubscribe(m) => stands_in_args(m),
            Messages::Unsubscribed(m) => stands_in_args(m),
            Messages::Welcome(m) => stands_in_args(m),
            Messages::Yield(m) => stands_in_args(m),
            Messages::Extension(_) => false,
        }
    }

    /// The tag of this message.
    pub fn id(&self) -> (r: Option<u64>)
        ensures
            r == self.id_spec(),
    {
        match self {
            Messages::Abort(_) => Some(MessageKind::Abort.tag()),
            Messages::Authenticate(_) => Some(MessageKind::Authenticate.tag()),
            Messages::Call(_) => Some(MessageKind::Call.tag()),
            Messages::Cancel(_) => Some(MessageKind::Cancel.tag()),
            Messages::Challenge(_) => Some(MessageKind::Challenge.tag()),
            Messages::Error(_) => Some(MessageKind::Error.tag()),
            Messages::Event(_) => Some(MessageKind::Event.tag()),
            Messages::Goodbye(_) => Some(MessageKind::Goodbye.tag()),
            Messages::Hello(_) => Some(MessageKind::Hello.tag()),
            Messages::Interrupt(_) => Some(MessageKind::Interrupt.tag()),
            Messages::Invocation(_) => Some(MessageKind::Invocation.tag()),
            Messages::Publish(_) => Some(MessageKind::Publish.tag()),
            Messages::Published(_) => Some(MessageKind::Published.tag()),
            Messages::Register(_) => Some(MessageKind::Register.tag()),
            Messages::Registered(_) => Some(MessageKind::Registered.tag()),
            Messages::Result(_) => Some(MessageKind::Result.tag()),
            Messages::Subscribe(_) => Some(MessageKind::Subscribe.tag()),
            Messages::Subscribed(_) => Some(MessageKind::Subscribed.tag()),
            Messages::Unregister(_) => Some(MessageKind::Unregister.tag()),
            Messages::Unregistered(_) => Some(MessageKind::Unregistered.tag()),
            Messages::Unsubscribe(_) => Some(MessageKind::Unsubscribe.tag()),
            Messages::Unsubscribed(_) => Some(MessageKind::Unsubscribed.tag()),
            Messages::Welcome(_) => Some(MessageKind::Welcome.tag()),
            Messages::Yield(_) => Some(MessageKind::Yield.tag()),
            Messages::Extension(values) => {
                if values.len() == 0 {
                    None
                } else {
                    match &values[0] {
                        Json::UInt(t) => Some(*t),
                        _ => None,
                    }
                }
            },
        }
    }

    /// Routes `frame` by its tag to the decoder of the matching type, or keeps
    /// it whole as an extension message when no known type has that tag.
    pub fn decode(frame: Vec<Json>) -> (r: Result<Messages, Error>)
        ensures
            r == Messages::decoded(frame),
    {
        if frame.len() == 0 {
            return Err(Error::Malformed(Malformation::NoTag));
        }
        let t = match &frame[0] {
            Json::UInt(t) => *t,
            _ => {
                return Err(Error::Malformed(Malformation::TagNotInteger));
            },
        };
        match MessageKind::from_tag(t) {
            None => Ok(Messages::Extension(frame)),
            Some(MessageKind::Abort) => match Abort::decode(frame) {
                Ok(m) => Ok(Messages::Abort(m)),
                Err(e) => Err(e),
            },
            Some(MessageKind::Authenticate) => match Authenticate::decode(frame) {
                Ok(m) => Ok(Messages::Authenticate(m)),
                Err(e) => Err(e),
            },
            Some(MessageKind::Call) => match Call::decode(frame) {
                Ok(m) => Ok(Messages::Call(m)),
                Err(e) => Err(e),
            },
            Some(MessageKind::Cancel) => match Cancel::decode(frame) {
                Ok(m) => Ok(Messages::Cancel(m)),
                Err(e) => Err(e),
            },
            Some(MessageKind::Challenge) => match Challenge::decode(frame) {
                Ok(m) => Ok(Messages::Challenge(m)),
                Err(e) => Err(e),
            },
            Some(MessageKind::Error) => match WampError::decode(frame) {
                Ok(m) => Ok(Messages::Error(m)),
                Err(e) => Err(e),
            },
            Some(MessageKind::Event) => match Event::decode(frame) {
                Ok(m) => Ok(Messages::Event(m)),
                Err(e) => Err(e),
            },
            Some(MessageKind::Goodbye) => match Goodbye::decode(frame) {
                Ok(m) => Ok(Messages::Goodbye(m)),
                Err(e) => Err(e),
            },
            Some(MessageKind::Hello) => match Hello::decode(frame) {
                Ok(m) => Ok(Messages::Hello(m)),
                Err(e) => Err(e),
            },
            Some(MessageKind::Interrupt) => match Interrupt::decode(frame) {
                Ok(m) => Ok(Messages::Interrupt(m)),
                Err(e) => Err(e),
            },
            Some(MessageKind::Invocation) => match Invocation::decode(frame) {
                Ok(m) => Ok(Messages::Invocation(m)),
                Err(e) => Err(e),
            },
            Some(MessageKind::Publish) => match Publish::decode(frame) {
                Ok(m) => Ok(Messages::Publish(m)),
                Err(e) => Err(e),
            },
            Some(MessageKind::Published) => match Published::decode(frame) {
                Ok(m) => Ok(Messages::Published(m)),
                Err(e) => Err(e),
            },
            Some(MessageKind::Register) => match Register::decode(frame) {
                Ok(m) => Ok(Messages::Register(m)),
                Err(e) => Err(e),
            },
            Some(MessageKind::Registered) => match Registered::decode(frame) {
                Ok(m) => Ok(Messages::Registered(m)),
                Err(e) => Err(e),
            },
            Some(MessageKind::Result) => match WampResult::decode(frame) {
                Ok(m) => Ok(Messages::Result(m)),
                Err(e) => Err(e),
            },
            Some(MessageKind::Subscribe) => match Subscribe::decode(frame) {
                Ok(m) => Ok(Messages::Subscribe(m)),
                Err(e) => Err(e),
            },
            Some(MessageKind::Subscribed) => match Subscribed::decode(frame) {
                Ok(m) => Ok(Messages::Subscribed(m)),
                Err(e) => Err(e),
            },
            Some(MessageKind::Unregister) => match Unregister::decode(frame) {
                Ok(m) => Ok(Messages::Unregister(m)),
                Err(e) => Err(e),
            },
            Some(MessageKind::Unregistered) => match Unregistered::decode(frame) {
                Ok(m) => Ok(Messages::Unregistered(m)),
                Err(e) => Err(e),
            },
            Some(MessageKind::Unsubscribe) => match Unsubscribe::decode(frame) {
                Ok(m) => Ok(Messages::Unsubscribe(m)),
                Err(e) => Err(e),
            },
            Some(MessageKind::Unsubscribed) => match Unsubscribed::decode(frame) {
                Ok(m) => Ok(Messages::Unsubscribed(m)),
                Err(e) => Err(e),
            },
            Some(MessageKind::Welcome) => match Welcome::decode(frame) {
                Ok(m) => Ok(Messages::Welcome(m)),
                Err(e) => Err(e),
            },
            Some(MessageKind::Yield) => match Yield::decode(frame) {
                Ok(m) => Ok(Messages::Yield(m)),
                Err(e) => Err(e),
            },
        }
    }

    /// Decodes a value that should be a frame; anything but an array is
    /// refused.
    pub fn from_value(v: Json) -> (r: Result<Messages, Error>)
        ensures
            r == match v {
                Json::Array(frame) => Messages::decoded(frame),
                _ => Err(Error::Malformed(Malformation::NotAnArray)),
            },
    {
        match v {
            Json::Array(frame) => Messages::decode(frame),
            _ => Err(Error::Malformed(Malformation::NotAnArray)),
        }
    }

    /// The frame of this message; an extension message gives back the frame
    /// it holds.
    pub fn encode(self) -> (r: Vec<Json>)
        ensures
            self.encodes_to(r),
    {
        match self {
            Messages::Abort(m) => m.encode(),
            Messages::Authenticate(m) => m.encode(),
            Messages::Call(m) => m.encode(),
            Messages::Cancel(m) => m.encode(),
            Messages::Challenge(m) => m.encode(),
            Messages::Error(m) => m.encode(),
            Messages::Event(m) => m.encode(),
            Messages::Goodbye(m) => m.encode(),
            Messages::Hello(m) => m.encode(),
            Messages::Interrupt(m) => m.encode(),
            Messages::Invocation(m) => m.encode(),
            Messages::Publish(m) => m.encode(),
            Messages::Published(m) => m.encode(),
            Messages::Register(m) => m.encode(),
            Messages::Registered(m) => m.encode(),
            Messages::Result(m) => m.encode(),
            Messages::Subscribe(m) => m.encode(),
            Messages::Subscribed(m) => m.encode(),
            Messages::Unregister(m) => m.encode(),
            Messages::Unregistered(m) => m.encode(),
            Messages::Unsubscribe(m) => m.encode(),
            Messages::Unsubscribed(m) => m.encode(),
            Messages::Welcome(m) => m.encode(),
            Messages::Yield(m) => m.encode(),
            Messages::Extension(v) => v,
        }
    }
}

impl From<Abort> for Messages {
    fn from(m: Abort) -> (r: Messages) {
        Messages::Abort(m)
    }
}

impl vstd::std_specs::convert::FromSpecImpl<Abort> for Messages {
    open spec fn obeys_from_spec() -> bool {
        true
    }

    open spec fn from_spec(m: Abort) -> Messages {
        Messages::Abort(m)
    }
}

impl From<Authenticate> for Messages {
    fn from(m: Authenticate) -> (r: Messages) {
        Messages::Authenticate(m)
    }
}

impl vstd::std_specs::convert::FromSpecImpl<Authenticate> for Messages {
    open spec fn obeys_from_spec() -> bool {
        true
    }

    open spec fn from_spec(m: Authenticate) -> Messages {
        Messages::Authenticate(m)
    }
}

impl From<Call> for Messages {
    fn from(m: Call) -> (r: Messages) {
        Messages::Call(m)
    }
}

impl vstd::std_specs::convert::FromSpecImpl<Call> for Messages {
    open spec fn obeys_from_spec() -> bool {
        true
    }

    open spec fn from_spec(m: Call) -> Messages {
        Messages::Call(m)
    }
}

impl From<Cancel> for Messages {
    fn from(m: Cancel) -> (r: Messages) {
        Messages::Cancel(m)
    }
}

impl vstd::std_specs::convert::FromSpecImpl<Cancel> for Messages {
    open spec fn obeys_from_spec() -> bool {
        true
    }

    open spec fn from_spec(m: Cancel) -> Messages {
        Messages::Cancel(m)
    }
}

impl From<Challenge> for Messages {
    fn from(m: Challenge) -> (r: Messages) {
        Messages::Challenge(m)
    }
}

impl vstd::std_specs::convert::FromSpecImpl<Challenge> for Messages {
    open spec fn obeys_from_spec() -> bool {
        true
    }

    open spec fn from_spec(m: Challenge) -> Messages {
        Messages::Challenge(m)
    }
}

impl From<WampError> for Messages {
    fn from(m: WampError) -> (r: Messages) {
        Messages::Error(m)
    }
}

impl vstd::std_specs::convert::FromSpecImpl<WampError> for Messages {
    open spec fn obeys_from_spec() -> bool {
        true
    }

    open spec fn from_spec(m: WampError) -> Messages {
        Messages::Error(m)
    }
}

impl From<Event> for Messages {
    fn from(m: Event) -> (r: Messages) {
        Messages::Event(m)
    }
}

impl vstd::std_specs::convert::FromSpecImpl<Event> for Messages {
    open spec fn obeys_from_spec() -> bool {
        true
    }

    open spec fn from_spec(m: Event) -> Messages {
        Messages::Event(m)
    }
}

impl From<Goodbye> for Messages {
    fn from(m: Goodbye) -> (r: Messages) {
        Messages::Goodbye(m)
    }
}

impl vstd::std_specs::convert::FromSpecImpl<Goodbye> for Messages {
    open spec fn obeys_from_spec() -> bool {
        true
    }

    open spec fn from_spec(m: Goodbye) -> Messages {
        Messages::Goodbye(m)
    }
}

impl From<Hello> for Messages {
    fn from(m: Hello) -> (r: Messages) {
        Messages::Hello(m)
    }
}

impl vstd::std_specs::convert::FromSpecImpl<Hello> for Messages {
    open spec fn obeys_from_spec() -> bool {
        true
    }

    open spec fn from_spec(m: Hello) -> Messages {
        Messages::Hello(m)
    }
}

impl From<Interrupt> for Messages {
    fn from(m: Interrupt) -> (r: Messages) {
        Messages::Interrupt(m)
    }
}

impl vstd::std_specs::convert::FromSpecImpl<Interrupt> for Messages {
    open spec fn obeys_from_spec() -> bool {
        true
    }

    open spec fn from_spec(m: Interrupt) -> Messages {
        Messages::Interrupt(m)
    }
}

impl From<Invocation> for Messages {
    fn from(m: Invocation) -> (r: Messages) {
        Messages::Invocation(m)
    }
}

impl vstd::std_specs::convert::FromSpecImpl<Invocation> for Messages {
    open spec fn obeys_from_spec() -> bool {
        true
    }

    open spec fn from_spec(m: Invocation) -> Messages {
        Messages::Invocation(m)
    }
}

impl From<Publish> for Messages {
    fn from(m: Publish) -> (r: Messages) {
        Messages::Publish(m)
    }
}

impl vstd::std_specs::convert::FromSpecImpl<Publish> for Messages {
    open spec fn obeys_from_spec() -> bool {
        true
    }

    open spec fn from_spec(m: Publish) -> Messages {
        Messages::Publish(m)
    }
}

impl From<Published> for Messages {
    fn from(m: Published) -> (r: Messages) {
        Messages::Published(m)
    }
}

impl vstd::std_specs::convert::FromSpecImpl<Published> for Messages {
    open spec fn obeys_from_spec() -> bool {
        true
    }

    open spec fn from_spec(m: Published) -> Messages {
        Messages::Published(m)
    }
}

impl From<Register> for Messages {
    fn from(m: Register) -> (r: Messages) {
        Messages::Register(m)
    }
}

impl vstd::std_specs::convert::FromSpecImpl<Register> for Messages {
    open spec fn obeys_from_spec() -> bool {
        true
    }

    open spec fn from_spec(m: Register) -> Messages {
        Messages::Register(m)
    }
}

impl From<Registered> for Messages {
    fn from(m: Registered) -> (r: Messages) {
        Messages::Registered(m)
    }
}

impl vstd::std_specs::convert::FromSpecImpl<Registered> for Messages {
    open spec fn obeys_from_spec() -> bool {
        true
    }

    open spec fn from_spec(m: Registered) -> Messages {
        Messages::Registered(m)
    }
}

impl From<WampResult> for Messages {
    fn from(m: WampResult) -> (r: Messages) {
        Messages::Result(m)
    }
}

impl vstd::std_specs::convert::FromSpecImpl<WampResult> for Messages {
    open spec fn obeys_from_spec() -> bool {
        true
    }

    open spec fn from_spec(m: WampResult) -> Messages {
        Messages::Result(m)
    }
}

impl From<Subscribe> for Messages {
    fn from(m: Subscribe) -> (r: Messages) {
        Messages::Subscribe(m)
    }
}

impl vstd::std_specs::convert::FromSpecImpl<Subscribe> for Messages {
    open spec fn obeys_from_spec() -> bool {
        true
    }

    open spec fn from_spec(m: Subscribe) -> Messages {
        Messages::Subscribe(m)
    }
}

impl From<Subscribed> for Messages {
    fn from(m: Subscribed) -> (r: Messages) {
        Messages::Subscribed(m)
    }
}

impl vstd::std_specs::convert::FromSpecImpl<Subscribed> for Messages {
    open spec fn obeys_from_spec() -> bool {
        true
    }

    open spec fn from_spec(m: Subscribed) -> Messages {
        Messages::Subscribed(m)
    }
}

impl From<Unregister> for Messages {
    fn from(m: Unregister) -> (r: Messages) {
        Messages::Unregister(m)
    }
}

impl vstd::std_specs::convert::FromSpecImpl<Unregister> for Messages {
    open spec fn obeys_from_spec() -> bool {
        true
    }

    open spec fn from_spec(m: Unregister) -> Messages {
        Messages::Unregister(m)
    }
}

impl From<Unregistered> for Messages {
    fn from(m: Unregistered) -> (r: Messages) {
        Messages::Unregistered(m)
    }
}

impl vstd::std_specs::convert::FromSpecImpl<Unregistered> for Messages {
    open spec fn obeys_from_spec() -> bool {
        true
    }

    open spec fn from_spec(m: Unregistered) -> Messages {
        Messages::Unregistered(m)
    }
}

impl From<Unsubscribe> for Messages {
    fn from(m: Unsubscribe) -> (r: Messages) {
        Messages::Unsubscribe(m)
    }
}

impl vstd::std_specs::convert::FromSpecImpl<Unsubscribe> for Messages {
    open spec fn obeys_from_spec() -> bool {
        true
    }

    open spec fn from_spec(m: Unsubscribe) -> Messages {
        Messages::Unsubscribe(m)
    }
}

impl From<Unsubscribed> for Messages {
    fn from(m: Unsubscribed) -> (r: Messages) {
        Messages::Unsubscribed(m)
    }
}

impl vstd::std_specs::convert::FromSpecImpl<Unsubscribed> for Messages {
    open spec fn obeys_from_spec() -> bool {
        true
    }

    open spec fn from_spec(m: Unsubscribed) -> Messages {
        Messages::Unsubscribed(m)
    }
}

impl From<Welcome> for Messages {
    fn from(m: Welcome) -> (r: Messages) {
        Messages::Welcome(m)
    }
}

impl vstd::std_specs::convert::FromSpecImpl<Welcome> for Messages {
    open spec fn obeys_from_spec() -> bool {
        true
    }

    open spec fn from_spec(m: Welcome) -> Messages {
        Messages::Welcome(m)
    }
}

impl From<Yield> for Messages {
    fn from(m: Yield) -> (r: Messages) {
        Messages::Yield(m)
    }
}

impl vstd::std_specs::convert::FromSpecImpl<Yield> for Messages {
    open spec fn obeys_from_spec() -> bool {
        true
    }

    open spec fn from_spec(m: Yield) -> Messages {
        Messages::Yield(m)
    }
}

impl TryFrom<Messages> for WampError {
    type Error = Error;

    fn try_from(m: Messages) -> (r: Result<WampError, Error>) {
        match m {
            Messages::Error(x) => Ok(x),
            _ => Err(Error::InvalidMessageEnumMember),
        }
    }
}

impl vstd::std_specs::convert::TryFromSpecImpl<Messages> for WampError {
    open spec fn obeys_try_from_spec() -> bool {
        true
    }

    open spec fn try_from_spec(m: Messages) -> Result<WampError, Error> {
        match m {
            Messages::Error(x) => Ok(x),
            _ => Err(Error::InvalidMessageEnumMember),
        }
    }
}

impl TryFrom<Messages> for WampResult {
    type Error = Error;

    fn try_from(m: Messages) -> (r: Result<WampResult, Error>) {
        match m {
            Messages::Result(x) => Ok(x),
            _ => Err(Error::InvalidMessageEnumMember),
        }
    }
}

impl vstd::std_specs::convert::TryFromSpecImpl<Messages> for WampResult {
    open spec fn obeys_try_from_spec() -> bool {
        true
    }

    open spec fn try_from_spec(m: Messages) -> Result<WampResult, Error> {
        match m {
            Messages::Result(x) => Ok(x),
            _ => Err(Error::InvalidMessageEnumMember),
        }
    }
}

/// Round trip: decoding the frame of a message gives that message back.
///
/// Two kinds of message are left out. One with `kwargs` but no `args` is
/// written with an empty array for `args`, which decodes as present, empty
/// `args`. An extension message comes back only if its first element is an
/// unsigned integer that no known type uses as its tag.
pub proof fn lemma_decode_encode(m: Messages, frame: Vec<Json>)
    requires
        m.encodes_to(frame),
        !m.stands_in_args(),
        m is Extension ==> frame@.len() > 0 && frame@[0] is UInt
            && kind_of_tag_spec(frame@[0]->UInt_0) is None,
    ensures
        Messages::decoded(frame) == Ok::<Messages, Error>(m),
{
    match m {
        Messages::Abort(x) => {
            x.lemma_round_trip(frame@);
            lemma_kind_of_own_tag(MessageKind::Abort);
        },
        Messages::Authenticate(x) => {
            x.lemma_round_trip(frame@);
            lemma_kind_of_own_tag(MessageKind::Authenticate);
        },
        Messages::Call(x) => {
            x.lemma_round_trip(frame@);
            lemma_kind_of_own_tag(MessageKind::Call);
        },
        Messages::Cancel(x) => {
            x.lemma_round_trip(frame@);
            lemma_kind_of_own_tag(MessageKind::Cancel);
        },
        Messages::Challenge(x) => {
            x.lemma_round_trip(frame@);
            lemma_kind_of_own_tag(MessageKind::Challenge);
        },
        Messages::Error(x) => {
            x.lemma_round_trip(frame@);
            lemma_kind_of_own_tag(MessageKind::Error);
        },
        Messages::Event(x) => {
            x.lemma_round_trip(frame@);
            lemma_kind_of_own_tag(MessageKind::Event);
        },
        Messages::Goodbye(x) => {
            x.lemma_round_trip(frame@);
            lemma_kind_of_own_tag(MessageKind::Goodbye);
        },
        Messages::Hello(x) => {
            x.lemma_round_trip(frame@);
            lemma_kind_of_own_tag(MessageKind::Hello);
        },
        Messages::Interrupt(x) => {
            x.lemma_round_trip(frame@);
            lemma_kind_of_own_tag(MessageKind::Interrupt);
        },
        Messages::Invocation(x) => {
            x.lemma_round_trip(frame@);
            lemma_kind_of_own_tag(MessageKind::Invocation);
        },
        Messages::Publish(x) => {
            x.lemma_round_trip(frame@);
            lemma_kind_of_own_tag(MessageKind::Publish);
        },
        Messages::Published(x) => {
            x.lemma_round_trip(frame@);
            lemma_kind_of_own_tag(MessageKind::Published);
        },
        Messages::Register(x) => {
            x.lemma_round_trip(frame@);
            lemma_kind_of_own_tag(MessageKind::Register);
        },
        Messages::Registered(x) => {
            x.lemma_round_trip(frame@);
            lemma_kind_of_own_tag(MessageKind::Registered);
        },
        Messages::Result(x) => {
            x.lemma_round_trip(frame@);
            lemma_kind_of_own_tag(MessageKind::Result);
        },
        Messages::Subscribe(x) => {
            x.lemma_round_trip(frame@);
            lemma_kind_of_own_tag(MessageKind::Subscribe);
        },
        Messages::Subscribed(x) => {
            x.lemma_round_trip(frame@);
            lemma_kind_of_own_tag(MessageKind::Subscribed);
        },
        Messages::Unregister(x) => {
            x.lemma_round_trip(frame@);
            lemma_kind_of_own_tag(MessageKind::Unregister);
        },
        Messages::Unregistered(x) => {
            x.lemma_round_trip(frame@);
            lemma_kind_of_own_tag(MessageKind::Unregistered);
        },
        Messages::Unsubscribe(x) => {
            x.lemma_round_trip(frame@);
            lemma_kind_of_own_tag(MessageKind::Unsubscribe);
        },
        Messages::Unsubscribed(x) => {
            x.lemma_round_trip(frame@);
            lemma_kind_of_own_tag(MessageKind::Unsubscribed);
        },
        Messages::Welcome(x) => {
            x.lemma_round_trip(frame@);
            lemma_kind_of_own_tag(MessageKind::Welcome);
        },
        Messages::Yield(x) => {
            x.lemma_round_trip(frame@);
            lemma_kind_of_own_tag(MessageKind::Yield);
        },
        Messages::Extension(_) => {},
    }
}

} // verus!
