//! The ways in which a session ends early.
use vstd::prelude::*;

verus! {

/// Why a session was torn down.
#[derive(Clone, Copy, Debug, PartialEq, Eq, Structural)]
pub enum Fault {
    /// A call to the mailbox store failed, or its answer could not be used.
    StoreUnavailable,
    /// A frame was malformed, or an event arrived out of its turn.
    ProtocolViolation,
    /// The transport was closed.
    TransportClosed,
    /// The negotiation engine rejected a description or a candidate.
    EngineFailure,
}

} // verus!
