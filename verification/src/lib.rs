//! Passphrase rendezvous and signalling relay.
//!
//! Two anonymous clients that share nothing but a passphrase find each other
//! through an external mailbox store and exchange the negotiation payloads
//! (offer, answer, ICE candidates) that a direct peer connection needs.
//!
//! Everything here is a pure decision: the state machines take events and
//! hand back the next action, and the code that owns sockets, timers and the
//! negotiation engine performs it.
pub mod assets;
pub mod coordinator;
pub mod fault;
pub mod mailbox;
pub mod negotiation;
pub mod protocol;
pub mod registry;
pub mod relay;
pub mod store;
pub mod wire;
