//! End-to-end scenarios over the verified state machines, driven at
//! explicit integer times (milliseconds).

use shardctl::controller::ShardingController;
use shardctl::gate::{ActivationGate, GateStep};
use shardctl::timer::QuiescenceTimer;

/// A primary port with two shard targets; the primary receives one
/// request at t = 0; the grace interval is 5 s. No activation happens
/// before t = 5000 ms, and exactly one activation, with the primary,
/// the two targets in order, and key range (0, 4), happens at the
/// first poll at or after it.
#[test]
fn one_request_then_grace_then_single_activation() {
    let primary = 4242u16;
    let target_a = 4243u16;
    let target_b = 4244u16;
    let mut gate = ActivationGate::new();
    let mut timer = QuiescenceTimer::new(5000);
    let mut ctl = ShardingController::new(primary, vec![target_a, target_b]);
    let mut activations = 0u32;

    // t = 0: the activation gate samples the counters and sees the one request.
    let step = gate.observe(&vec![(primary, 1u64), (target_a, 0), (target_b, 0)]);
    assert_eq!(step, GateStep::FirstTraffic);
    timer.on_first_traffic(0);

    // The loop polls once per second.
    for t in (0u64..=10_000).step_by(1000) {
        let enable_seen = timer.poll(t);
        if t < 5000 {
            assert!(!enable_seen);
        }
        let out = ctl.step(enable_seen, false);
        if let Some(plan) = out.activate {
            assert!(t >= 5000);
            assert_eq!(plan.primary, primary);
            assert_eq!(plan.others, vec![target_a, target_b]);
            assert_eq!(plan.key_offset, 0);
            assert_eq!(plan.key_length, 4);
            activations += 1;
        }
    }
    assert_eq!(activations, 1);
    assert_eq!(ctl.activations, 1);
}

/// An interrupt arrives mid-iteration: the iteration that is already
/// running completes without exiting, and the next iteration boundary
/// observes the stop flag and exits.
#[test]
fn interrupt_observed_at_next_iteration_boundary() {
    let mut ctl = ShardingController::new(7000, vec![7001]);

    // Iteration underway when the interrupt arrives: it sampled the
    // stop flag as false at its boundary and runs to completion.
    let out = ctl.step(false, false);
    assert!(!out.exit);

    // The interrupt handler has set the flag; the next boundary sees it.
    let stop_flag = true;
    let out = ctl.step(false, stop_flag);
    assert!(out.exit);
}

/// Enable signals arriving over and over never cause a second
/// activation, however the polls interleave.
#[test]
fn repeated_enable_signals_activate_only_once() {
    let mut ctl = ShardingController::new(1000, vec![1001, 1002, 1003]);
    let mut activations = 0u32;
    for round in 0..50 {
        let out = ctl.step(round % 2 == 0, false);
        if out.activate.is_some() {
            activations += 1;
        }
    }
    assert_eq!(activations, 1);
    assert_eq!(ctl.activations, 1);
}
