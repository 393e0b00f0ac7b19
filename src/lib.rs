//! Guest-side protocol engine for exchanging envelopes with a host process.
//!
//! The library decides; the caller moves bytes. A [`session::Session`] is
//! created from the configuration, accepts the initial envelope, prepares
//! correlated remote calls, checks their responses and prepares the final
//! response. Transport and wire encoding stay with the caller.

pub mod session;
pub mod value;
