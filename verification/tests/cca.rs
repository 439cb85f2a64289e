//! The NDD congestion-control algorithms on crafted event sequences.

use netsim::fixedpoint::{div_fp_sat, FP_SCALE};
use netsim::metrics::{MetricConfig, MetricFilter};
use netsim::ndd::NDD;
use netsim::ndd_slow::{get_action_from_phase, NDDFSMAction, NDDSlow, Record, CYCLE_STEPS};
use netsim::time::Time;

fn expected_cycle() -> Vec<NDDFSMAction> {
    let mut v = Vec::new();
    v.push(NDDFSMAction::FirstCruise);
    for _ in 0..9 {
        v.push(NDDFSMAction::Cruise);
    }
    v.push(NDDFSMAction::FirstProbe);
    v.push(NDDFSMAction::Probe);
    v.push(NDDFSMAction::Drain);
    v
}

#[test]
fn action_stream_over_two_cycles() {
    // Over 26 steps starting at phase 0 the action stream is the cruise,
    // probe, drain cycle twice.
    let cycle = expected_cycle();
    assert_eq!(cycle.len(), 13);
    for i in 0..26u32 {
        let want = cycle[(i % CYCLE_STEPS) as usize];
        assert_eq!(get_action_from_phase(i), want, "phase {}", i);
    }
}

#[test]
fn phase_advances_once_per_send_complete_event() {
    let mut cca = NDDSlow::default();
    cca.init_with_phase("flow", None, 0);
    assert_eq!(cca.get_phase(), 0);
    let mut seq = 0u64;
    for step in 0..26u64 {
        let now = Time::from_micros(step * 50_000);
        cca.on_send(now, seq, seq);
        // The cumulative ack for the record's first packet closes its
        // send half and advances the phase.
        let ack_at = Time::from_micros(step * 50_000 + 20_000);
        cca.on_ack(ack_at, seq + 1, seq, Time::from_micros(20_000), 0);
        seq += 1;
        assert_eq!(cca.get_phase(), ((step + 1) % 13) as u32);
        // Single-packet epochs never complete an ack half, so the
        // observed action stays the slow-start override.
        assert_eq!(cca.get_last_action(), NDDFSMAction::SlowStart);
    }
}

#[test]
fn cwnd_is_rounded_window() {
    let cca = NDDSlow::default();
    assert_eq!(cca.get_cwnd(), 8);
    let mut cca = NDDSlow::default();
    cca.on_timeout();
    assert_eq!(cca.get_cwnd(), 2);
}

#[test]
fn intersend_never_below_one_millisecond() {
    let cca = NDDSlow::default();
    // With the zero smoothed-RTT fallback the pacing floor applies.
    assert_eq!(cca.get_intersend_time().micros, 1000);
    let mut cca = NDDSlow::default();
    cca.on_timeout();
    assert!(cca.get_intersend_time().micros >= 1000);
}

#[test]
fn slow_start_doubles_on_low_delay() {
    let mut cca = NDDSlow::default();
    cca.init_with_phase("flow", None, 0);
    cca.on_send(Time::zero(), 0, 0);
    // First ack: rtt equals the running minimum, so the average delay is
    // far below 1.5 minRTT and the window doubles, staying >= the floor.
    cca.on_ack(Time::from_micros(1000), 1, 0, Time::from_micros(1000), 0);
    assert_eq!(cca.get_cwnd(), 16);
    assert!(cca.get_cwnd() >= 8);
    // A second epoch doubles again.
    cca.on_send(Time::from_micros(2000), 1, 1);
    cca.on_ack(Time::from_micros(3000), 2, 1, Time::from_micros(1000), 0);
    assert_eq!(cca.get_cwnd(), 32);
}

#[test]
fn window_floor_after_shrinking() {
    let mut cca = NDDSlow::default();
    cca.init_with_phase("flow", None, 0);
    let mut seq = 0u64;
    // Drive several epochs whose delay is far above 1.5 minRTT: slow
    // start halves, but the floor catches the window at 8.
    for step in 0..6u64 {
        let base = step * 100_000;
        cca.on_send(Time::from_micros(base), seq, seq);
        // One tiny rtt pins the minimum low, the rest inflate the
        // smoothed rtt.
        let rtt = if step == 0 { 1_000 } else { 500_000 };
        cca.on_ack(
            Time::from_micros(base + 50_000),
            seq + 1,
            seq,
            Time::from_micros(rtt),
            0,
        );
        seq += 1;
        assert!(cca.get_cwnd() >= 8, "floor holds at step {}", step);
    }
}

#[test]
fn fast_variant_probes_additively_before_first_close() {
    let mut ndd = NDD::default();
    assert_eq!(ndd.get_cwnd(), 8);
    ndd.on_send(Time::zero(), 0, 0);
    // Low delay: the window grows by half a packet, rounding to 9.
    ndd.on_ack(Time::from_micros(1000), 1, 0, Time::from_micros(1000), 0);
    assert_eq!(ndd.get_cwnd(), 9);
    // High delay pushes it back down, but never below the floor.
    ndd.on_ack(Time::from_micros(600_000), 2, 1, Time::from_micros(500_000), 0);
    assert!(ndd.get_cwnd() >= 8);
}

#[test]
fn fast_variant_timeout_collapses_window() {
    let mut ndd = NDD::default();
    ndd.on_timeout();
    assert_eq!(ndd.get_cwnd(), 2);
}

#[test]
fn random_initial_phase_stays_in_the_cycle() {
    for _ in 0..20 {
        let mut cca = NDDSlow::default();
        cca.init("flow", None);
        assert!(cca.get_phase() < CYCLE_STEPS);
    }
}

#[test]
fn fast_variant_updates_on_a_closed_record() {
    let mut ndd = NDD::default();
    // Epoch A sends three packets, paced a millisecond apart.
    ndd.on_send(Time::zero(), 0, 0);
    ndd.on_send(Time::from_micros(1000), 1, 1);
    ndd.on_send(Time::from_micros(2000), 2, 2);
    // The ack for its first packet closes the send half.
    ndd.on_ack(Time::from_micros(10_000), 1, 0, Time::from_micros(10_000), 0);
    // A new epoch opens, then the ack for A's last packet closes A
    // entirely; its ack rate is far below its send rate, so the filters
    // and flow-count bounds update and the window moves multiplicatively.
    ndd.on_send(Time::from_micros(11_000), 3, 3);
    ndd.on_ack(Time::from_micros(20_000), 2, 1, Time::from_micros(18_000), 0);
    assert!(ndd.last_n_bounds().is_some(), "a closed record carries flow-count bounds");
    // The first ack probed additively to 8.5; the close then moved the
    // window by one multiplicative step in either direction.
    let cwnd = ndd.get_cwnd();
    assert!(cwnd == 6 || cwnd == 11, "one multiplicative move from 8.5, got {}", cwnd);
}

#[test]
fn rate_and_capacity_estimates_are_exact() {
    let rec = Record {
        snd_beg_seq: 0,
        snd_beg_time: Time::zero(),
        snd_end_seq: Some(10),
        snd_end_time: Some(Time::from_micros(100_000)),
        ack_beg_seq: Some(0),
        ack_beg_time: Some(Time::from_micros(50_000)),
        ack_end_seq: Some(10),
        ack_end_time: Some(Time::from_micros(250_000)),
        snd_complete: true,
        ack_complete: true,
        cwnd_fp: 8 * FP_SCALE,
        phase: 0,
        action: NDDFSMAction::Probe,
    };
    // 10 packets over 100 ms send at 100 packets per second; the same 10
    // over 200 ms ack at 50.
    assert_eq!(rec.snd_rate_fp(), 100 * FP_SCALE);
    assert_eq!(rec.ack_rate_fp(), 50 * FP_SCALE);
    // With a fair share of 25 pkts/s: C = (100-25)*50/(100-50) = 75.
    let c = rec.c_estimate(25 * FP_SCALE);
    assert_eq!(c, 75 * FP_SCALE);
    // And N = C / F = 3 flows.
    assert_eq!(div_fp_sat(c, 25 * FP_SCALE), 3 * FP_SCALE);
}

#[test]
fn pacing_follows_twice_srtt_over_cwnd() {
    let mut cca = NDDSlow::default();
    cca.init_with_phase("flow", None, 0);
    cca.on_send(Time::zero(), 0, 0);
    // One ack: srtt becomes 400 ms and the window doubles to 16, so the
    // pacing gap is 2 * 400ms / 16 = 50 ms.
    cca.on_ack(Time::from_micros(400_000), 1, 0, Time::from_micros(400_000), 0);
    assert_eq!(cca.get_cwnd(), 16);
    assert_eq!(cca.get_intersend_time().micros, 50_000);
}

#[test]
fn init_attaches_one_metric_named_after_the_flow() {
    let cfg = MetricConfig {
        data_dir: String::from("data"),
        filters: vec![MetricFilter { regex: String::from(".*"), enabled: true }],
    };
    let mut cca = NDDSlow::default();
    cca.init_with_phase("flow0", Some(cfg), 0);
    // No window update yet: the attached metric is empty, so nothing is
    // rendered.
    assert_eq!(cca.finish().len(), 0);
    // One send-complete ack logs exactly one row, rendered under the
    // flow's metric name.
    cca.on_send(Time::zero(), 0, 0);
    cca.on_ack(Time::from_micros(1000), 1, 0, Time::from_micros(1000), 0);
    let files = cca.finish();
    assert_eq!(files.len(), 1);
    assert_eq!(files[0].0, "flow0ack");
    // Without a configuration nothing is attached.
    let mut bare = NDDSlow::default();
    bare.init_with_phase("flow1", None, 0);
    bare.on_send(Time::zero(), 0, 0);
    bare.on_ack(Time::from_micros(1000), 1, 0, Time::from_micros(1000), 0);
    assert_eq!(bare.finish().len(), 0);
}
