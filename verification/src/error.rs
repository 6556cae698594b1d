//! The error vocabulary of the transport core. Every fallible operation
//! returns one of these; nothing here aborts the process.

use vstd::prelude::*;

verus! {

/// Why an operation of this crate failed.
#[derive(Clone, Copy, Debug, PartialEq, Eq, Structural)]
pub enum IceError {
    /// A buffer holding an address or a send-info pair had an unsupported
    /// length or shape.
    AddressParseFailed,
    /// A port range whose effective minimum exceeds its effective maximum.
    InvalidPortRange,
    /// A port scan tried every port of its range and none could be bound.
    NoPortAvailable,
    /// A STUN message or one of its attributes could not be decoded.
    StunDecodeFailed,
    /// The underlying transport failed to send or receive.
    TransportIo,
    /// The deadline passed while awaiting a STUN response.
    Timeout,
    /// An inbound message carried a username other than the expected one.
    MismatchUsername,
}

} // verus!
