//! Wire codec for a tagged-array publish/subscribe and RPC protocol.
//!
//! Every message travels as an ordered array whose first element is an
//! integer tag. The library encodes each message type to that positional
//! form and back, routes decoded arrays to their type by tag, and states
//! which peer roles may send or receive each message type.

pub mod error;
pub mod factories;
pub mod frame;
pub mod json;
pub mod kind;
pub mod messages;
pub mod roles;
pub mod uri_rules;

pub use json::Json;
pub use error::{CloseUri, Error, Malformation, WampErrorUri};
pub use factories::{
    add_associated_subscription, increment, subscribe, subscription_contains, unsubscribe,
    RequestIdCounter,
};
pub use kind::{Field, MessageKind, Shape};
pub use messages::{
    Abort, Authenticate, Call, Cancel, Challenge, Event, Goodbye, Hello, Interrupt, Invocation,
    Messages, Publish, Published, Register, Registered, Subscribe, Subscribed, Unregister,
    Unregistered, Unsubscribe, Unsubscribed, WampError, WampErrorEvent, WampMessage, WampResult,
    Welcome, Yield,
};
pub use roles::{direction, MessageDirection, Roles};
pub use uri_rules::{EasyRule, Rule, WampRules, WampUriRule};
