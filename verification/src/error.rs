//! The failures that an operation can end in.

use vstd::prelude::*;

verus! {

/// The call could not be delivered, or the connection was lost.
#[derive(Clone, Copy, Debug, PartialEq, Eq, Structural)]
pub enum TransportError {
    /// The connection to the broker is gone.
    ConnectionLost,
    /// The broker could not be reached or did not accept the call.
    CallFailed,
}

/// The broker answered a request with a status other than success.
#[derive(Clone, Copy, Debug, PartialEq, Eq, Structural)]
pub enum BrokerError {
    /// The user dismissed the interaction.
    Cancelled,
    /// The interaction ended in some other way.
    Other,
}

/// A reply did not have the shape that the protocol gives it.
#[derive(Clone, Copy, Debug, PartialEq, Eq, Structural)]
pub enum ProtocolError {
    /// The status code of a response is none of the known ones.
    UnknownStatus,
    /// A field that the response must carry is absent.
    MissingField,
    /// A field is present with a value of the wrong type.
    WrongType,
    /// A device set has bits outside the three device classes.
    InvalidDeviceBits,
    /// A string that must be an object path is none.
    InvalidObjectPath,
    /// A string that must be a handle token is none.
    InvalidToken,
    /// A response arrived for an identifier that no request is waiting on.
    UnexpectedResponse,
}

/// The caller asked for something that the state at hand does not allow.
#[derive(Clone, Copy, Debug, PartialEq, Eq, Structural)]
pub enum StateError {
    /// The session has been closed.
    SessionClosed,
    /// The session has been started already.
    AlreadyStarted,
    /// The session has not been started.
    NotActive,
    /// The device class of the event is not among the granted ones.
    DeviceNotGranted,
    /// The handle token names a request that is still pending.
    TokenInUse,
    /// The response identifier names a request that is still pending.
    ResponseIdInUse,
}

/// Why an operation failed.
#[derive(Clone, Copy, Debug, PartialEq, Eq, Structural)]
pub enum Error {
    /// The call did not reach the broker, or its reply did not come back.
    /// This ends the operation at hand, not the use of the connection.
    Transport(TransportError),
    /// The broker answered, and the answer is a refusal.
    Broker(BrokerError),
    /// The broker answered in a shape that cannot be read.
    Protocol(ProtocolError),
    /// The caller's request does not fit the state at hand. Nothing was sent.
    State(StateError),
}

} // verus!
