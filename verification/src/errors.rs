//! The failure taxonomy of the gateway client.

use vstd::prelude::*;

verus! {

/// Every terminal outcome of a negotiation attempt is one of these; none is
/// retried inside the core, and each propagates to the caller unchanged.
#[derive(Clone, Copy, PartialEq, Eq, Structural, Debug)]
pub enum GatewayError {
    /// The signaling channel could not be opened, or failed while in use.
    TransportError,
    /// The gateway answered a request with an error code.
    ProtocolError { code: u64 },
    /// The media engine rejected a session description.
    NegotiationError,
    /// A bounded wait (transaction response or initial connect) expired.
    Timeout,
    /// An operation was attempted out of sequence.
    InvalidState,
    /// The caller asked the client to stop.
    Cancelled,
}

} // verus!
