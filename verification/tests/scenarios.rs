//! End-to-end topology runs: senders over a shared bottleneck link with
//! a propagation delay, an acker, and a return router.

use netsim::acker::Acker;
use netsim::base::{Action, SimError};
use netsim::delay::Delay;
use netsim::link::Link;
use netsim::ndd::NDD;
use netsim::ndd_slow::NDDSlow;
use netsim::router::Router;
use netsim::sim::{NetObject, Scheduler};
use netsim::time::Time;
use netsim::transport::{CongestionControl, TcpSender};

const TWO_SECONDS: u64 = 2_000_000;
const STEP_BUDGET: usize = 2_000_000;

fn build_topology(
    num_senders: usize,
    rate_bps: u64,
    capacity: usize,
    delay_micros: u64,
    phases: &[u32],
    fast: bool,
) -> Scheduler {
    let mut sched = Scheduler::new();
    let link_id = sched.next_obj_id();
    let delay_id = link_id + 1;
    let acker_id = delay_id + 1;
    let tcp_sender_id_start = acker_id + 1;
    let router_id = tcp_sender_id_start + num_senders;

    let link = Link::new(rate_bps, capacity, delay_id);
    let delay = Delay::new(Time::from_micros(delay_micros), acker_id);
    let acker_addr = sched.next_addr();
    let acker = Acker::new(acker_addr, router_id);
    let mut router = Router::new(sched.next_addr());

    sched.register_obj(NetObject::Link(link));
    sched.register_obj(NetObject::Delay(delay));
    sched.register_obj(NetObject::Acker(acker));

    for i in 0..num_senders {
        let sender_addr = sched.next_addr();
        let cca = if fast {
            CongestionControl::NDD(NDD::default())
        } else {
            CongestionControl::NDDSlow(NDDSlow::default())
        };
        let mut sender = TcpSender::new(link_id, sender_addr, acker_addr, Time::zero(), cca);
        sender.init_with_phase("flow", None, phases[i]);
        let port = router.add_port(tcp_sender_id_start + i);
        router.add_route(sender_addr, port);
        let id = sched.register_obj(NetObject::Sender(sender));
        assert_eq!(id, tcp_sender_id_start + i);
        sched.schedule(Time::zero(), id, Action::Event(0));
    }
    let id = sched.register_obj(NetObject::Router(router));
    assert_eq!(id, router_id);
    sched
}

fn sender_state(sched: &Scheduler, id: usize) -> (u64, u64, u64) {
    let sender = sched.get_obj(id).as_sender().unwrap();
    (sender.last_acked(), sender.last_sent(), sender.cca().get_cwnd())
}

#[test]
fn single_sender_two_seconds() {
    let mut sched = build_topology(1, 1_500_000, 1000, 10_000, &[0], false);
    let finished = sched.simulate(Some(Time::from_micros(TWO_SECONDS)), STEP_BUDGET).unwrap();
    assert!(finished, "the run must come to rest within the step budget");
    let (acked, sent, cwnd) = sender_state(&sched, 3);
    assert!(acked > 0, "data was acknowledged");
    assert!(sent >= acked);
    assert!(cwnd >= 8, "the window floor holds at the end");
}

#[test]
fn closed_records_never_ack_above_capacity() {
    let mut sched = build_topology(1, 1_500_000, 1000, 10_000, &[0], false);
    sched.simulate(Some(Time::from_micros(TWO_SECONDS)), STEP_BUDGET).unwrap();
    let sender = sched.get_obj(3).as_sender().unwrap();
    let cca = sender.cca().as_ndd_slow().unwrap();
    // 1500-byte packets over 1.5 Mbit/s drain at 125 packets per second.
    let capacity_fp = 125 * 65_536;
    let mut seen_closed = false;
    for i in 0..cca.num_records() {
        let rec = cca.get_record(i).unwrap();
        if rec.ack_complete {
            seen_closed = true;
            assert!(
                rec.ack_rate_fp() <= capacity_fp,
                "the bottleneck capacity bounds the measured ack rate"
            );
        }
    }
    assert!(seen_closed, "two seconds close at least one record");
}

#[test]
fn identical_topologies_replay_identically() {
    let mut one = build_topology(2, 1_500_000, 1000, 10_000, &[0, 6], false);
    let mut two = build_topology(2, 1_500_000, 1000, 10_000, &[0, 6], false);
    one.simulate(Some(Time::from_micros(TWO_SECONDS)), STEP_BUDGET).unwrap();
    two.simulate(Some(Time::from_micros(TWO_SECONDS)), STEP_BUDGET).unwrap();
    assert_eq!(one.now().micros, two.now().micros);
    for id in 3..5 {
        assert_eq!(sender_state(&one, id), sender_state(&two, id));
    }
}

#[test]
fn two_senders_estimate_a_small_flow_count() {
    let mut sched = build_topology(2, 1_500_000, 1000, 10_000, &[0, 6], false);
    sched.simulate(Some(Time::from_micros(TWO_SECONDS)), STEP_BUDGET).unwrap();
    for id in 3..5 {
        let sender = sched.get_obj(id).as_sender().unwrap();
        let cca = sender.cca().as_ndd_slow().unwrap();
        let n_fp = cca.get_n_estimate_fp();
        assert!(
            n_fp >= 65_536 && n_fp <= 4 * 65_536,
            "flow-count estimate {} out of [1, 4] for sender {}",
            n_fp,
            id
        );
    }
}

#[test]
fn sender_without_acks_sends_exactly_one_window() {
    // A lone sender whose packets vanish: it paces out exactly its
    // window floor of packets, one pacing gap apart, then stalls.
    let mut sched = Scheduler::new();
    let sink_addr = sched.next_addr();
    sched.register_obj(NetObject::Acker(Acker::new(sink_addr, 0)));
    let sender_addr = sched.next_addr();
    let peer_addr = sched.next_addr();  // nobody answers for this address
    let cca = CongestionControl::NDDSlow(NDDSlow::default());
    let mut sender = TcpSender::new(0, sender_addr, peer_addr, Time::zero(), cca);
    sender.init_with_phase("flow", None, 0);
    let id = sched.register_obj(NetObject::Sender(sender));
    sched.schedule(Time::zero(), id, Action::Event(0));
    let finished = sched.simulate(Some(Time::from_micros(100_000)), STEP_BUDGET).unwrap();
    assert!(finished);
    let sender = sched.get_obj(id).as_sender().unwrap();
    assert_eq!(sender.last_acked(), 0);
    assert_eq!(sender.last_sent(), 8, "exactly one window of back-to-back packets");
}

#[test]
fn unroutable_ack_aborts_the_run() {
    // The same topology, but the router never learns the sender's
    // address: the first returning ack aborts the whole simulation.
    let mut sched = Scheduler::new();
    let link = Link::new(1_500_000, 1000, 1);
    let delay = Delay::new(Time::from_micros(10_000), 2);
    let acker_addr = sched.next_addr();
    let acker = Acker::new(acker_addr, 4);
    let router = Router::new(sched.next_addr());
    sched.register_obj(NetObject::Link(link));
    sched.register_obj(NetObject::Delay(delay));
    sched.register_obj(NetObject::Acker(acker));
    let sender_addr = sched.next_addr();
    let cca = CongestionControl::NDDSlow(NDDSlow::default());
    let mut sender = TcpSender::new(0, sender_addr, acker_addr, Time::zero(), cca);
    sender.init_with_phase("flow", None, 0);
    sched.register_obj(NetObject::Sender(sender));
    sched.register_obj(NetObject::Router(router));
    sched.schedule(Time::zero(), 3, Action::Event(0));
    let err = sched.simulate(Some(Time::from_micros(TWO_SECONDS)), STEP_BUDGET).unwrap_err();
    assert_eq!(err, SimError::UnroutableDestination);
}

#[test]
fn fast_variant_completes_a_run() {
    let mut sched = build_topology(1, 1_500_000, 1000, 10_000, &[0], true);
    let finished = sched.simulate(Some(Time::from_micros(TWO_SECONDS)), STEP_BUDGET).unwrap();
    assert!(finished);
    let (acked, _, cwnd) = sender_state(&sched, 3);
    assert!(acked > 0);
    assert!(cwnd >= 8);
}
