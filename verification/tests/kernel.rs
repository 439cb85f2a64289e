//! Network-object and scheduler behaviour on concrete packets.

use netsim::acker::{Acker, ACK_SIZE_BYTES};
use netsim::base::{Action, IdAlloc, Packet, PacketType, SimError};
use netsim::delay::Delay;
use netsim::link::Link;
use netsim::router::Router;
use netsim::ndd_slow::NDDSlow;
use netsim::sim::{NetObject, Scheduler};
use netsim::time::Time;
use netsim::transport::{CongestionControl, TcpSender};

fn data_packet(uid: u64, seq: u64, src: u64, dest: u64, at: u64) -> Packet {
    Packet {
        uid,
        sent_time: Time::from_micros(at),
        size_bytes: 1500,
        src,
        dest,
        ptype: PacketType::Data { seq_num: seq },
    }
}

#[test]
fn acker_answers_data_with_incremented_seq() {
    let mut acker = Acker::new(7, 3);
    let mut ids = IdAlloc::new();
    let pkt = data_packet(41, 5, 2, 7, 1000);
    let emits = acker.push(4, 1, Time::from_micros(2000), pkt, &mut ids);
    assert_eq!(emits.len(), 1);
    assert_eq!(emits[0].target, 3);
    assert_eq!(emits[0].time.micros, 2000);
    match emits[0].action {
        Action::Push(ack) => {
            assert_eq!(ack.size_bytes, ACK_SIZE_BYTES);
            assert_eq!(ack.size_bytes, 40);
            assert_eq!(ack.src, 7);
            assert_eq!(ack.dest, 2);
            match ack.ptype {
                PacketType::Ack { orig_sent_time, ack_uid, ack_seq } => {
                    assert_eq!(orig_sent_time.micros, 1000);
                    assert_eq!(ack_uid, 41);
                    assert_eq!(ack_seq, 6);
                }
                _ => panic!("expected an ack"),
            }
        }
        _ => panic!("expected a push"),
    }
}

#[test]
fn acker_ignores_foreign_and_ack_packets() {
    let mut acker = Acker::new(7, 3);
    let mut ids = IdAlloc::new();
    let foreign = data_packet(1, 0, 2, 9, 0);
    assert_eq!(acker.push(4, 1, Time::zero(), foreign, &mut ids).len(), 0);
}

#[test]
fn router_without_route_aborts() {
    let mut router = Router::new(50);
    let pkt = data_packet(1, 0, 2, 99, 0);
    let res = router.push(5, 1, Time::zero(), pkt);
    assert_eq!(res.unwrap_err(), SimError::UnroutableDestination);
}

#[test]
fn router_forwards_by_destination() {
    let mut router = Router::new(50);
    let port = router.add_port(11);
    router.add_route(99, port);
    let pkt = data_packet(1, 0, 2, 99, 0);
    let emits = router.push(5, 1, Time::from_micros(7), pkt).unwrap();
    assert_eq!(emits.len(), 1);
    assert_eq!(emits[0].target, 11);
    assert_eq!(emits[0].time.micros, 7);
}

#[test]
fn link_capacity_zero_drops_everything() {
    let mut link = Link::new(1_000_000, 0, 2);
    for i in 0..5u64 {
        let emits = link.push(1, 0, Time::from_micros(i), data_packet(i, i, 2, 3, 0));
        assert_eq!(emits.len(), 0, "a zero-capacity link never schedules a drain");
    }
    assert_eq!(link.buffer_len(), 0);
}

#[test]
fn link_capacity_one_keeps_one_packet_in_flight() {
    let mut link = Link::new(1_500_000, 1, 2);
    let now = Time::zero();
    let first = link.push(1, 0, now, data_packet(10, 0, 2, 3, 0));
    assert_eq!(first.len(), 1, "first push schedules the drain");
    // 1500 bytes at 1.5 Mbit/s serialise in 8 ms.
    assert_eq!(first[0].time.micros, 8000);
    match first[0].action {
        Action::Event(uid) => assert_eq!(uid, 0),
        _ => panic!("expected a drain event"),
    }
    // Back-to-back pushes are dropped until the drain fires.
    for i in 1..4u64 {
        let emits = link.push(1, 0, now, data_packet(10 + i, i, 2, 3, 0));
        assert_eq!(emits.len(), 0);
        assert_eq!(link.buffer_len(), 1);
    }
    let drained = link.event(1, 1, Time::from_micros(8000), 0).unwrap();
    assert_eq!(drained.len(), 1);
    match drained[0].action {
        Action::Push(p) => assert_eq!(p.uid, 10),
        _ => panic!("expected the head packet"),
    }
    assert_eq!(link.buffer_len(), 0);
    // Room again: the next push is accepted.
    let emits = link.push(1, 0, Time::from_micros(8000), data_packet(20, 4, 2, 3, 0));
    assert_eq!(emits.len(), 1);
}

#[test]
fn link_preserves_survivor_order() {
    let mut link = Link::new(1_500_000, 2, 2);
    let now = Time::zero();
    link.push(1, 0, now, data_packet(1, 0, 2, 3, 0));
    link.push(1, 0, now, data_packet(2, 1, 2, 3, 0));
    link.push(1, 0, now, data_packet(3, 2, 2, 3, 0));  // dropped
    let d1 = link.event(1, 1, Time::from_micros(8000), 0).unwrap();
    match d1[0].action {
        Action::Push(p) => assert_eq!(p.uid, 1),
        _ => panic!(),
    }
    assert_eq!(d1.len(), 2, "a follow-up drain is scheduled while the buffer is non-empty");
    let d2 = link.event(1, 1, Time::from_micros(16000), 0).unwrap();
    match d2[0].action {
        Action::Push(p) => assert_eq!(p.uid, 2),
        _ => panic!(),
    }
    assert_eq!(d2.len(), 1);
}

#[test]
fn link_event_on_empty_buffer_is_an_invariant_violation() {
    let mut link = Link::new(1_000_000, 4, 2);
    assert_eq!(link.event(1, 1, Time::zero(), 0).unwrap_err(), SimError::InvariantViolation);
}

#[test]
fn delay_holds_then_forwards() {
    let mut delay = Delay::new(Time::from_micros(10_000), 5);
    let emits = delay.push(2, 0, Time::from_micros(100), data_packet(9, 0, 2, 3, 0));
    assert_eq!(emits.len(), 1);
    assert_eq!(emits[0].time.micros, 10_100);
    assert_eq!(emits[0].target, 2);
    let out = delay.event(2, 2, Time::from_micros(10_100), 0).unwrap();
    assert_eq!(out.len(), 1);
    assert_eq!(out[0].target, 5);
    match out[0].action {
        Action::Push(p) => assert_eq!(p.uid, 9),
        _ => panic!(),
    }
}

#[test]
fn scheduler_dispatches_equal_times_in_insertion_order() {
    let mut sched = Scheduler::new();
    let link_id = sched.next_obj_id();
    assert_eq!(link_id, 0);
    let link = Link::new(1_500_000, 8, 1);
    sched.register_obj(NetObject::Link(link));
    sched.register_obj(NetObject::Acker(Acker::new(999, 0)));
    // Two pushes at the same instant: the first inserted must arrive first.
    sched.schedule(Time::zero(), 0, Action::Push(data_packet(100, 0, 2, 3, 0)));
    sched.schedule(Time::zero(), 0, Action::Push(data_packet(200, 1, 2, 3, 0)));
    let rest = sched.simulate(None, 1).unwrap();
    assert!(!rest, "one step must leave the second entry pending");
    let front = sched.get_obj(0).as_link().unwrap().front_uid();
    assert_eq!(front, Some(100));
    sched.simulate(None, 1).unwrap();
    assert_eq!(sched.get_obj(0).as_link().unwrap().buffer_len(), 2);
}

#[test]
fn scheduler_time_never_moves_backward() {
    let mut sched = Scheduler::new();
    let link = Link::new(1_500_000, 8, 1);
    sched.register_obj(NetObject::Link(link));
    sched.register_obj(NetObject::Acker(Acker::new(999, 0)));
    sched.schedule(Time::from_micros(500), 0, Action::Push(data_packet(1, 0, 2, 3, 0)));
    sched.schedule(Time::from_micros(200), 0, Action::Push(data_packet(2, 1, 2, 3, 0)));
    let mut last = sched.now().micros;
    loop {
        let done = sched.simulate(None, 1).unwrap();
        let now = sched.now().micros;
        assert!(now >= last, "dispatch time is monotone");
        last = now;
        if done {
            break;
        }
    }
}

#[test]
fn sender_rejects_an_ack_beyond_last_sent() {
    let cca = CongestionControl::NDDSlow(NDDSlow::default());
    let mut sender = TcpSender::new(0, 5, 6, Time::zero(), cca);
    let mut ids = IdAlloc::new();
    let ack = Packet {
        uid: 1,
        sent_time: Time::zero(),
        size_bytes: 40,
        src: 6,
        dest: 5,
        ptype: PacketType::Ack {
            orig_sent_time: Time::zero(),
            ack_uid: 0,
            ack_seq: 3,
        },
    };
    let err = sender.push(1, 0, Time::from_micros(10), ack, &mut ids).unwrap_err();
    assert_eq!(err, SimError::InvariantViolation);
}
