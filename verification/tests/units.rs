use shardctl::codec::{
    decode_request, decode_response, encode_request, encode_response, handle_request,
    PingRequest, PingResponse, KEY_LENGTH, KEY_OFFSET, WIRE_LEN,
};
use shardctl::controller::{ShardingController, ShardingState};
use shardctl::gate::{ActivationGate, GatePhase, GateStep};
use shardctl::stats::{diff_snapshot, nonzero_deltas, DeltaReport, StatsSnapshot};
use shardctl::timer::{QuiescenceTimer, TimerState};
use shardctl::ShardError;

#[test]
fn request_round_trip() {
    let req = PingRequest { work: 0xdead_beef, amount: 0x1122_3344_5566_7788 };
    let bytes = encode_request(&req);
    assert_eq!(bytes.len(), WIRE_LEN);
    let back = decode_request(&bytes).unwrap();
    assert_eq!(back, req);
}

#[test]
fn response_round_trip() {
    let resp = PingResponse { work: 7, amount: u64::MAX };
    let bytes = encode_response(&resp);
    assert_eq!(bytes.len(), WIRE_LEN);
    let back = decode_response(&bytes).unwrap();
    assert_eq!(back, resp);
}

#[test]
fn request_encoding_is_little_endian_fixed_width() {
    let req = PingRequest { work: 1, amount: 2 };
    let bytes = encode_request(&req);
    assert_eq!(bytes, vec![1, 0, 0, 0, 2, 0, 0, 0, 0, 0, 0, 0]);
}

#[test]
fn shard_key_range_is_first_field() {
    let req = PingRequest { work: 0x0403_0201, amount: 0 };
    let bytes = encode_request(&req);
    assert_eq!(&bytes[KEY_OFFSET..KEY_OFFSET + KEY_LENGTH], &[0x01, 0x02, 0x03, 0x04]);
}

#[test]
fn decode_rejects_wrong_length() {
    assert!(decode_request(&[0u8; 11]).is_none());
    assert!(decode_request(&[0u8; 13]).is_none());
    assert!(decode_request(&[]).is_none());
    assert!(decode_response(&[0u8; 5]).is_none());
}

#[test]
fn handle_request_echoes_values() {
    let req = PingRequest { work: 42, amount: 99 };
    let bytes = encode_request(&req);
    let reply = handle_request(&bytes).unwrap();
    let resp = decode_response(&reply).unwrap();
    assert_eq!(resp, PingResponse { work: 42, amount: 99 });
}

#[test]
fn handle_request_rejects_malformed_payload() {
    let res = handle_request(&[1, 2, 3]);
    assert_eq!(res.unwrap_err(), ShardError::Protocol);
}

#[test]
fn gate_waits_while_primary_silent() {
    let mut gate = ActivationGate::new();
    // Heavy traffic on non-primary ports must not move the activation gate.
    let counts = vec![(5000u16, 0u64), (5001, 400), (5002, 12)];
    for _ in 0..5 {
        assert_eq!(gate.observe(&counts), GateStep::KeepWaiting);
        assert_eq!(gate.phase, GatePhase::Detecting);
    }
}

#[test]
fn gate_signals_on_first_primary_traffic_then_reports() {
    let mut gate = ActivationGate::new();
    assert_eq!(gate.observe(&vec![(5000u16, 0u64), (5001, 0)]), GateStep::KeepWaiting);
    assert_eq!(gate.observe(&vec![(5000u16, 1u64), (5001, 0)]), GateStep::FirstTraffic);
    // The first-traffic signal is single-use: later samples only report.
    assert_eq!(gate.observe(&vec![(5000u16, 2u64), (5001, 3)]), GateStep::Report);
    assert_eq!(gate.observe(&vec![(5000u16, 0u64), (5001, 3)]), GateStep::Report);
}

#[test]
fn timer_fires_only_after_grace() {
    let mut t = QuiescenceTimer::new(5000);
    assert!(!t.poll(100));
    t.on_first_traffic(1000);
    assert!(!t.poll(1000));
    assert!(!t.poll(5999));
    assert!(t.poll(6000));
    assert_eq!(t.state, TimerState::Fired { since: 1000, at: 6000 });
}

#[test]
fn timer_enable_signal_is_single_use() {
    let mut t = QuiescenceTimer::new(10);
    t.on_first_traffic(0);
    assert!(t.poll(10));
    assert!(!t.poll(11));
    assert!(!t.poll(1000));
}

#[test]
fn controller_activates_once_with_configured_plan() {
    let mut c = ShardingController::new(5000, vec![5001, 5002]);
    let out = c.step(false, false);
    assert!(out.activate.is_none());
    assert!(!out.exit);

    let out = c.step(true, false);
    let plan = out.activate.unwrap();
    assert_eq!(plan.primary, 5000);
    assert_eq!(plan.others, vec![5001, 5002]);
    assert_eq!(plan.key_offset, 0);
    assert_eq!(plan.key_length, 4);
    assert_eq!(c.state, ShardingState::Enabled);
    assert_eq!(c.activations, 1);

    // A second enable signal is ignored by the state guard.
    let out = c.step(true, false);
    assert!(out.activate.is_none());
    assert_eq!(c.activations, 1);
    assert_eq!(c.state, ShardingState::Enabled);
}

#[test]
fn controller_observes_stop_flag() {
    let mut c = ShardingController::new(1, vec![2]);
    assert!(!c.step(false, false).exit);
    assert!(c.step(false, true).exit);
    // The stop check is independent of the enable signal.
    let out = c.step(true, true);
    assert!(out.exit);
    assert!(out.activate.is_some());
}

fn snapshot(rxqs: Vec<Vec<Vec<(u16, u64)>>>) -> StatsSnapshot {
    StatsSnapshot { rxqs }
}

#[test]
fn diff_subtracts_elementwise() {
    let cur = snapshot(vec![
        vec![vec![(5000, 10), (5001, 4)], vec![(5000, 7)]],
        vec![vec![(5002, 3)]],
    ]);
    let prev = snapshot(vec![
        vec![vec![(5000, 6), (5001, 4)], vec![(5000, 0)]],
        vec![vec![(5002, 1)]],
    ]);
    let d = diff_snapshot(&cur, &prev);
    assert_eq!(
        d,
        snapshot(vec![
            vec![vec![(5000, 4), (5001, 0)], vec![(5000, 7)]],
            vec![vec![(5002, 2)]],
        ])
    );
}

#[test]
fn diff_clamps_decreasing_counter_to_zero() {
    // A counter that went backwards (reset or wrap) yields delta 0 and
    // is never reported.
    let cur = snapshot(vec![vec![vec![(5000, 2), (5001, 9)]]]);
    let prev = snapshot(vec![vec![vec![(5000, 5), (5001, 4)]]]);
    let d = diff_snapshot(&cur, &prev);
    assert_eq!(d, snapshot(vec![vec![vec![(5000, 0), (5001, 5)]]]));
    let reports = nonzero_deltas(&d);
    assert_eq!(
        reports,
        vec![DeltaReport { rxq: 0, cpu: 0, port: 5001, count: 5 }]
    );
}

#[test]
fn nonzero_deltas_reports_exactly_positive_entries() {
    let d = snapshot(vec![
        vec![vec![(5000, 0), (5001, 2)], vec![]],
        vec![vec![(5000, 1)], vec![(5002, 0)]],
    ]);
    let reports = nonzero_deltas(&d);
    assert_eq!(
        reports,
        vec![
            DeltaReport { rxq: 0, cpu: 0, port: 5001, count: 2 },
            DeltaReport { rxq: 1, cpu: 0, port: 5000, count: 1 },
        ]
    );
}

#[test]
fn nonzero_deltas_of_empty_snapshot_is_empty() {
    let d = snapshot(vec![]);
    assert!(nonzero_deltas(&d).is_empty());
    let d = snapshot(vec![vec![], vec![vec![]]]);
    assert!(nonzero_deltas(&d).is_empty());
}
