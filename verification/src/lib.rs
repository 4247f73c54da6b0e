//! Client-side signaling core for a Janus-style WebRTC gateway.
//!
//! The crate models the negotiation of one WebRTC session over a duplex
//! signaling channel: session creation, plugin-handle attachment, the SDP
//! offer/answer exchange, and trickled ICE candidates, together with the
//! keepalive heartbeats that keep the gateway-side session alive.
//!
//! The core is deliberately free of I/O. The [`coordinator::Coordinator`]
//! is a state machine: the surrounding program performs transport and
//! media-engine work, translates what happened into a
//! [`coordinator::Event`], and carries out the [`coordinator::Action`]s
//! that each step returns. Everything the machine decides is stated in
//! contracts and verified.

use vstd::prelude::*;

pub mod coordinator;
pub mod envelope;
pub mod errors;
pub mod manager;
pub mod preflight;

verus! {

/// Seconds between keepalive heartbeats; shorter than a gateway's usual
/// session-expiry window.
pub const KEEPALIVE_INTERVAL_SECS: u64 = 20;

/// Bound, in seconds, on the wait for a transaction response and on the
/// initial transport connect; expiry is surfaced as a timeout.
pub const WAIT_BOUND_SECS: u64 = 30;

} // verus!
