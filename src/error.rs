use crate::kind::{Field, MessageKind, Shape};
use vstd::prelude::*;

verus! {

/// How the outer form of a frame is wrong.
#[derive(Clone, Copy, Debug, PartialEq, Eq, Structural)]
pub enum Malformation {
    /// The value handed to the decoder is not an array.
    NotAnArray,
    /// The array is empty: there is no tag.
    NoTag,
    /// The first element is not an unsigned integer.
    TagNotInteger,
    /// Elements follow the last position the message type defines.
    ExtraElements,
}

/// Why a frame could not be decoded, or a message could not be converted.
#[derive(Clone, Copy, Debug, PartialEq, Eq, Structural)]
pub enum Error {
    /// The frame's tag is not the tag of the type being decoded.
    TagMismatch { kind: MessageKind, expected: u64, actual: u64 },
    /// The frame ended before a required position.
    MissingField { kind: MessageKind, field: Field },
    /// A position holds a value of the wrong shape.
    ShapeViolation { kind: MessageKind, field: Field, shape: Shape },
    /// The frame as a whole is malformed.
    Malformed(Malformation),
    /// A message is not of the variant that was asked for.
    InvalidMessageEnumMember,
}

/// Error URIs that a router may send.
#[derive(Clone, Copy, Debug, PartialEq, Eq, Structural)]
pub enum WampErrorUri {
    NotAuthorized,
    ProcedureAlreadyExists,
    NoSuchRealm,
    ProtocolViolation,
    NoSuchSubscription,
    NoSuchRegistration,
    InvalidUri,
    NoSuchProcedure,
    InvalidArgument,
    Canceled,
    PayloadSizeExceeded,
    FeatureNotSupported,
    Timeout,
    Unavailable,
    NoAvailableCallee,
    DiscloseMeNotAllowed,
    OptionDisallowedDiscloseMe,
    NoMatchingAuthMethod,
    NoSuchRole,
    NoSuchPrincipal,
    AuthenticationDenied,
    AuthenticationFailed,
    AuthenticationRequired,
    AuthorizationDenied,
    AuthorizationFailed,
    AuthorizationRequired,
    NetworkFailure,
    OptionNotAllowed,
}

/// Reasons given when a session is closed.
#[derive(Clone, Copy, Debug, PartialEq, Eq, Structural)]
pub enum CloseUri {
    SystemShutdown,
    CloseRealm,
    GoodbyeAndOut,
    Killed,
}

} // verus!
