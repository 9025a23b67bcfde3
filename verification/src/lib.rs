//! A verified core for a multi-port RPC echo sharding controller.
//!
//! The library holds the logic of the controller: the fixed-width wire
//! codec and per-request echo computation, the activation gate that
//! detects first traffic on the primary port, the quiescence timer that
//! delays sharding by a grace interval, the sharding state machine with
//! its at-most-once activation guarantee, and the traffic-stats
//! snapshot diffing. The surrounding process (sockets, threads, signal
//! handling, the kernel steering subsystem) lives outside the library
//! and feeds it plain values.

use vstd::prelude::*;

pub mod codec;
pub mod controller;
pub mod gate;
pub mod stats;
pub mod timer;

verus! {

/// The error taxonomy of the controller.
///
/// `Setup` covers failures before steady state (a bind or steering-load
/// failure); `Protocol` a malformed request payload, fatal only to the
/// affected listener; `RuntimeStats` a stats fetch or diff failure,
/// fatal to the whole controller; `Signaling` emitting on a one-time
/// channel with no waiting consumer, a lifecycle defect.
#[derive(Clone, Copy, Debug, PartialEq, Eq, Structural)]
pub enum ShardError {
    Setup,
    Protocol,
    RuntimeStats,
    Signaling,
}

} // verus!
