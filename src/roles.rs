//! Which peer roles may send or receive each message type.
use crate::kind::MessageKind;
use vstd::prelude::*;

verus! {

/// The roles a peer may hold: four on the client side and two on the router
/// side.
#[derive(Clone, Copy, Debug, PartialEq, Eq, Structural)]
pub enum Roles {
    Callee,
    Caller,
    Publisher,
    Subscriber,
    Dealer,
    Broker,
}

/// Whether a role may receive and whether it may send a message type.
#[derive(Clone, Copy, Debug, PartialEq, Eq, Structural)]
pub struct MessageDirection {
    pub receives: bool,
    pub sends: bool,
}

/// The message types each role may originate.
pub open spec fn may_send(role: Roles, kind: MessageKind) -> bool {
    match role {
        Roles::Callee => matches!(
            kind,
            MessageKind::Hello | MessageKind::Authenticate | MessageKind::Goodbye
            | MessageKind::Error | MessageKind::Register | MessageKind::Unregister
            | MessageKind::Yield
        ),
        Roles::Caller => matches!(
            kind,
            MessageKind::Hello | MessageKind::Authenticate | MessageKind::Goodbye
            | MessageKind::Publish | MessageKind::Call | MessageKind::Cancel
        ),
        Roles::Publisher => matches!(
            kind,
            MessageKind::Hello | MessageKind::Authenticate | MessageKind::Goodbye
            | MessageKind::Publish
        ),
        Roles::Subscriber => matches!(
            kind,
            MessageKind::Hello | MessageKind::Authenticate
            | MessageKind::Subscribe | MessageKind::Unsubscribe
        ),
        Roles::Dealer => matches!(
            kind,
            MessageKind::Welcome | MessageKind::Abort | MessageKind::Challenge
            | MessageKind::Goodbye | MessageKind::Error | MessageKind::Call
            | MessageKind::Cancel | MessageKind::Registered
            | MessageKind::Unregistered | MessageKind::Invocation
            | MessageKind::Interrupt
        ),
        Roles::Broker => matches!(
            kind,
            MessageKind::Welcome | MessageKind::Abort | MessageKind::Challenge
            | MessageKind::Goodbye | MessageKind::Error | MessageKind::Published
            | MessageKind::Subscribed | MessageKind::Unsubscribed
            | MessageKind::Event | MessageKind::Result
        ),
    }
}

/// The message types each role may accept.
pub open spec fn may_receive(role: Roles, kind: MessageKind) -> bool {
    match role {
        Roles::Callee => matches!(
            kind,
            MessageKind::Welcome | MessageKind::Abort | MessageKind::Challenge
            | MessageKind::Goodbye | MessageKind::Error | MessageKind::Published
            | MessageKind::Registered | MessageKind::Unregistered
            | MessageKind::Invocation | MessageKind::Interrupt
        ),
        Roles::Caller => matches!(
            kind,
            MessageKind::Welcome | MessageKind::Abort | MessageKind::Challenge
            | MessageKind::Goodbye | MessageKind::Error | MessageKind::Result
            | MessageKind::Interrupt
        ),
        Roles::Publisher => matches!(
            kind,
            MessageKind::Welcome | MessageKind::Abort | MessageKind::Challenge
            | MessageKind::Goodbye | MessageKind::Error | MessageKind::Published
        ),
        Roles::Subscriber => matches!(
            kind,
            MessageKind::Welcome | MessageKind::Abort | MessageKind::Challenge
            | MessageKind::Goodbye | MessageKind::Error | MessageKind::Subscribed
            | MessageKind::Unsubscribed | MessageKind::Event
        ),
        Roles::Dealer => matches!(
            kind,
            MessageKind::Hello | MessageKind::Authenticate | MessageKind::Goodbye
            | MessageKind::Error | MessageKind::Register | MessageKind::Unregister
            | MessageKind::Yield
        ),
        Roles::Broker => matches!(
            kind,
            MessageKind::Hello | MessageKind::Authenticate | MessageKind::Goodbye
            | MessageKind::Publish | MessageKind::Subscribe
            | MessageKind::Unsubscribe
        ),
    }
}

/// The entry of the role-direction matrix for `role` and `kind`.
pub fn direction(role: Roles, kind: MessageKind) -> (r: MessageDirection)
    ensures
        r.sends == may_send(role, kind),
        r.receives == may_receive(role, kind),
{
    let (receives, sends) = match kind {
        MessageKind::Hello => match role {
            Roles::Callee => (false, true),
            Roles::Caller => (false, true),
            Roles::Publisher => (false, true),
            Roles::Subscriber => (false, true),
            Roles::Dealer => (true, false),
            Roles::Broker => (true, false),
        },
        MessageKind::Welcome => match role {
            Roles::Callee => (true, false),
            Roles::Caller => (true, false),
            Roles::Publisher => (true, false),
            Roles::Subscriber => (true, false),
            Roles::Dealer => (false, true),
            Roles::Broker => (false, true),
        },
        MessageKind::Abort => match role {
            Roles::Callee => (true, false),
            Roles::Caller => (true, false),
            Roles::Publisher => (true, false),
            Roles::Subscriber => (true, false),
            Roles::Dealer => (false, true),
            Roles::Broker => (false, true),
        },
        MessageKind::Challenge => match role {
            Roles::Callee => (true, false),
            Roles::Caller => (true, false),
            Roles::Publisher => (true, false),
            Roles::Subscriber => (true, false),
            Roles::Dealer => (false, true),
            Roles::Broker => (false, true),
        },
        MessageKind::Authenticate => match role {
            Roles::Callee => (false, true),
            Roles::Caller => (false, true),
            Roles::Publisher => (false, true),
            Roles::Subscriber => (false, true),
            Roles::Dealer => (true, false),
            Roles::Broker => (true, false),
        },
        MessageKind::Goodbye => match role {
            Roles::Callee => (true, true),
            Roles::Caller => (true, true),
            Roles::Publisher => (true, true),
            Roles::Subscriber => (true, false),
            Roles::Dealer => (true, true),
            Roles::Broker => (true, true),
        },
        MessageKind::Error => match role {
            Roles::Callee => (true, true),
            Roles::Caller => (true, false),
            Roles::Publisher => (true, false),
            Roles::Subscriber => (true, false),
            Roles::Dealer => (true, true),
            Roles::Broker => (false, true),
        },
        MessageKind::Publish => match role {
            Roles::Callee => (false, false),
            Roles::Caller => (false, true),
            Roles::Publisher => (false, true),
            Roles::Subscriber => (false, false),
            Roles::Dealer => (false, false),
            Roles::Broker => (true, false),
        },
        MessageKind::Published => match role {
            Roles::Callee => (true, false),
            Roles::Caller => (false, false),
            Roles::Publisher => (true, false),
            Roles::Subscriber => (false, false),
            Roles::Dealer => (false, false),
            Roles::Broker => (false, true),
        },
        MessageKind::Subscribe => match role {
            Roles::Callee => (false, false),
            Roles::Caller => (false, false),
            Roles::Publisher => (false, false),
            Roles::Subscriber => (false, true),
            Roles::Dealer => (false, false),
            Roles::Broker => (true, false),
        },
        MessageKind::Subscribed => match role {
            Roles::Callee => (false, false),
            Roles::Caller => (false, false),
            Roles::Publisher => (false, false),
            Roles::Subscriber => (true, false),
            Roles::Dealer => (false, false),
            Roles::Broker => (false, true),
        },
        MessageKind::Unsubscribe => match role {
            Roles::Callee => (false, false),
            Roles::Caller => (false, false),
            Roles::Publisher => (false, false),
            Roles::Subscriber => (false, true),
            Roles::Dealer => (false, false),
            Roles::Broker => (true, false),
        },
        MessageKind::Unsubscribed => match role {
            Roles::Callee => (false, false),
            Roles::Caller => (false, false),
            Roles::Publisher => (false, false),
            Roles::Subscriber => (true, false),
            Roles::Dealer => (false, false),
            Roles::Broker => (false, true),
        },
        MessageKind::Event => match role {
            Roles::Callee => (false, false),
            Roles::Caller => (false, false),
            Roles::Publisher => (false, false),
            Roles::Subscriber => (true, false),
            Roles::Dealer => (false, false),
            Roles::Broker => (false, true),
        },
        MessageKind::Call => match role {
            Roles::Callee => (false, false),
            Roles::Caller => (false, true),
            Roles::Publisher => (false, false),
            Roles::Subscriber => (false, false),
            Roles::Dealer => (false, true),
            Roles::Broker => (false, false),
        },
        MessageKind::Cancel => match role {
            Roles::Callee => (false, false),
            Roles::Caller => (false, true),
            Roles::Publisher => (false, false),
            Roles::Subscriber => (false, false),
            Roles::Dealer => (false, true),
            Roles::Broker => (false, false),
        },
        MessageKind::Result => match role {
            Roles::Callee => (false, false),
            Roles::Caller => (true, false),
            Roles::Publisher => (false, false),
            Roles::Subscriber => (false, false),
            Roles::Dealer => (false, false),
            Roles::Broker => (false, true),
        },
        MessageKind::Register => match role {
            Roles::Callee => (false, true),
            Roles::Caller => (false, false),
            Roles::Publisher => (false, false),
            Roles::Subscriber => (false, false),
            Roles::Dealer => (true, false),
            Roles::Broker => (false, false),
        },
        MessageKind::Registered => match role {
            Roles::Callee => (true, false),
            Roles::Caller => (false, false),
            Roles::Publisher => (false, false),
            Roles::Subscriber => (false, false),
            Roles::Dealer => (false, true),
            Roles::Broker => (false, false),
        },
        MessageKind::Unregister => match role {
            Roles::Callee => (false, true),
            Roles::Caller => (false, false),
            Roles::Publisher => (false, false),
            Roles::Subscriber => (false, false),
            Roles::Dealer => (true, false),
            Roles::Broker => (false, false),
        },
        MessageKind::Unregistered => match role {
            Roles::Callee => (true, false),
            Roles::Caller => (false, false),
            Roles::Publisher => (false, false),
            Roles::Subscriber => (false, false),
            Roles::Dealer => (false, true),
            Roles::Broker => (false, false),
        },
        MessageKind::Invocation => match role {
            Roles::Callee => (true, false),
            Roles::Caller => (false, false),
            Roles::Publisher => (false, false),
            Roles::Subscriber => (false, false),
            Roles::Dealer => (false, true),
            Roles::Broker => (false, false),
        },
        MessageKind::Interrupt => match role {
            Roles::Callee => (true, false),
            Roles::Caller => (true, false),
            Roles::Publisher => (false, false),
            Roles::Subscriber => (false, false),
            Roles::Dealer => (false, true),
            Roles::Broker => (false, false),
        },
        MessageKind::Yield => match role {
            Roles::Callee => (false, true),
            Roles::Caller => (false, false),
            Roles::Publisher => (false, false),
            Roles::Subscriber => (false, false),
            Roles::Dealer => (true, false),
            Roles::Broker => (false, false),
        },
    };
    MessageDirection { receives, sends }
}

} // verus!
