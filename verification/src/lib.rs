//! Client-side protocol for submitting an atomic bundle of signed
//! transactions to a remote execution/auction engine and deciding, within a
//! bounded wall-clock window, whether the bundle was accepted, rejected, or
//! landed.
//!
//! The library holds the protocol's decisions: packet and identity
//! construction for a bundle, the confirmation coordinator's event loop as a
//! state machine over its shrinking time budget, the classification of
//! streamed result events, the all-or-nothing fallback over per-transaction
//! statuses, the wait-window setting's parse, and the scheme-based choice of
//! transport security. The caller owns the channels, the result stream and
//! the status source, and drives the state machine with what they yield.

pub mod bundle;
pub mod config;
pub mod coordinator;
pub mod errors;
pub mod events;
pub mod transport;
