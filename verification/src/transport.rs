//! The TCP-like sender: a window- and pacing-driven transmit loop over a
//! pluggable congestion-control algorithm.

use vstd::prelude::*;
use crate::base::{Action, Addr, Emit, IdAlloc, NetObjId, Packet, PacketType, SeqNum, SimError};
use crate::fixedpoint::spec_round_fp;
use crate::metrics::MetricConfig;
use crate::ndd::NDD;
use crate::ndd_slow::{NDDSlow, MIN_INTERSEND_MICROS};
use crate::time::Time;

verus! {

/// Size in bytes of every data packet.
pub const DATA_SIZE_BYTES: u64 = 1500;

/// The congestion-control algorithm a sender drives: a closed set of
/// known algorithms, so the simulator needs no virtual calls.
pub enum CongestionControl {
    NDDSlow(NDDSlow),
    NDD(NDD),
}

impl CongestionControl {
    /// Two values run the same algorithm.
    pub open spec fn same_algorithm(self, o: CongestionControl) -> bool {
        match (self, o) {
            (CongestionControl::NDDSlow(_), CongestionControl::NDDSlow(_)) => true,
            (CongestionControl::NDD(_), CongestionControl::NDD(_)) => true,
            _ => false,
        }
    }

    pub open spec fn wf(self) -> bool {
        match self {
            CongestionControl::NDDSlow(c) => c.wf(),
            CongestionControl::NDD(c) => c.wf(),
        }
    }

    /// The window in whole packets.
    pub open spec fn cwnd_pkts_spec(self) -> int {
        match self {
            CongestionControl::NDDSlow(c) => spec_round_fp(c.cwnd_fp_spec()),
            CongestionControl::NDD(c) => spec_round_fp(c.cwnd_fp_spec()),
        }
    }

    /// The least send spacing in microseconds.
    pub open spec fn intersend_micros_spec(self) -> int {
        match self {
            CongestionControl::NDDSlow(c) => if crate::ndd_slow::spec_intersend_micros(
                c.srtt_micros(),
                c.cwnd_fp_spec(),
            ) >= MIN_INTERSEND_MICROS {
                crate::ndd_slow::spec_intersend_micros(c.srtt_micros(), c.cwnd_fp_spec())
            } else {
                MIN_INTERSEND_MICROS as int
            },
            CongestionControl::NDD(c) => if crate::ndd_slow::spec_intersend_micros(
                c.srtt_micros(),
                c.cwnd_fp_spec(),
            ) >= MIN_INTERSEND_MICROS {
                crate::ndd_slow::spec_intersend_micros(c.srtt_micros(), c.cwnd_fp_spec())
            } else {
                MIN_INTERSEND_MICROS as int
            },
        }
    }

    pub fn get_cwnd(&self) -> (r: u64)
        ensures
            r == self.cwnd_pkts_spec(),
    {
        match self {
            CongestionControl::NDDSlow(c) => c.get_cwnd(),
            CongestionControl::NDD(c) => c.get_cwnd(),
        }
    }

    pub fn get_intersend_time(&self) -> (r: Time)
        ensures
            r.micros == self.intersend_micros_spec(),
            r.micros >= MIN_INTERSEND_MICROS,
    {
        match self {
            CongestionControl::NDDSlow(c) => c.get_intersend_time(),
            CongestionControl::NDD(c) => c.get_intersend_time(),
        }
    }

    /// Bookkeeping after a transmission; never changes the window or the
    /// pacing inputs.
    pub fn on_send(&mut self, now: Time, seq_num: SeqNum, uid: u64)
        requires
            old(self).wf(),
        ensures
            final(self).wf(),
            final(self).same_algorithm(*old(self)),
            cca_on_send_post(*old(self), *final(self), now, seq_num),
            final(self).cwnd_pkts_spec() == old(self).cwnd_pkts_spec(),
            final(self).intersend_micros_spec() == old(self).intersend_micros_spec(),
    {
        match self {
            CongestionControl::NDDSlow(c) => c.on_send(now, seq_num, uid),
            CongestionControl::NDD(c) => c.on_send(now, seq_num, uid),
        }
    }

    /// Reaction to a cumulative ack.
    pub fn on_ack(&mut self, now: Time, cum_ack: SeqNum, ack_uid: u64, rtt: Time, num_lost: u64)
        requires
            old(self).wf(),
        ensures
            final(self).wf(),
            final(self).same_algorithm(*old(self)),
            cca_on_ack_post(*old(self), *final(self), now, cum_ack, rtt),
    {
        match self {
            CongestionControl::NDDSlow(c) => c.on_ack(now, cum_ack, ack_uid, rtt, num_lost),
            CongestionControl::NDD(c) => c.on_ack(now, cum_ack, ack_uid, rtt, num_lost),
        }
    }

    pub fn on_timeout(&mut self)
        requires
            old(self).wf(),
        ensures
            final(self).wf(),
            final(self).same_algorithm(*old(self)),
            cca_on_timeout_post(*old(self), *final(self)),
            final(self).cwnd_pkts_spec() == 2,
    {
        match self {
            CongestionControl::NDDSlow(c) => c.on_timeout(),
            CongestionControl::NDD(c) => c.on_timeout(),
        }
    }

    pub fn init(&mut self, name: &str, metrics_config: Option<MetricConfig>)
        requires
            old(self).wf(),
        ensures
            final(self).wf(),
            final(self).same_algorithm(*old(self)),
            cca_init_post(*old(self), *final(self), metrics_config, name@),
    {
        match self {
            CongestionControl::NDDSlow(c) => c.init(name, metrics_config),
            CongestionControl::NDD(c) => c.init(name, metrics_config),
        }
    }

    /// Like `init`, with a caller-chosen phase for reproducible runs.
    pub fn init_with_phase(&mut self, name: &str, metrics_config: Option<MetricConfig>, phase: u32)
        requires
            old(self).wf(),
        ensures
            final(self).wf(),
            final(self).same_algorithm(*old(self)),
            cca_init_post(*old(self), *final(self), metrics_config, name@),
            (*final(self)) matches CongestionControl::NDDSlow(f) ==> f.phase_spec() == (
            phase as int) % (crate::ndd_slow::CYCLE_STEPS as int),
    {
        match self {
            CongestionControl::NDDSlow(c) => c.init_with_phase(name, metrics_config, phase),
            CongestionControl::NDD(c) => c.init(name, metrics_config),
        }
    }

    /// The metric files collected over the run.
    pub fn finish(&self) -> (files: Vec<(String, Vec<u8>)>) {
        match self {
            CongestionControl::NDDSlow(c) => c.finish(),
            CongestionControl::NDD(c) => c.finish(),
        }
    }

    /// The algorithm, when it is the RTT-phased NDD.
    pub fn as_ndd_slow(&self) -> (r: Option<&NDDSlow>)
        ensures
            match r {
                Some(c) => *self matches CongestionControl::NDDSlow(inner) && *c == inner,
                None => !(*self matches CongestionControl::NDDSlow(_)),
            },
    {
        match self {
            CongestionControl::NDDSlow(c) => Some(c),
            CongestionControl::NDD(_) => None,
        }
    }

    /// The algorithm, when it is the rate-matched NDD.
    pub fn as_ndd(&self) -> (r: Option<&NDD>)
        ensures
            match r {
                Some(c) => *self matches CongestionControl::NDD(inner) && *c == inner,
                None => !(*self matches CongestionControl::NDD(_)),
            },
    {
        match self {
            CongestionControl::NDD(c) => Some(c),
            CongestionControl::NDDSlow(_) => None,
        }
    }
}

/// The ack reaction of whichever algorithm runs: the variant is kept
/// and its own exact post-state relation holds.
pub open spec fn cca_on_ack_post(
    pre: CongestionControl,
    post: CongestionControl,
    now: Time,
    cum_ack: u64,
    rtt: Time,
) -> bool {
    match (pre, post) {
        (CongestionControl::NDDSlow(o), CongestionControl::NDDSlow(f)) =>
            crate::ndd_slow::spec_on_ack_post(o, f, now, cum_ack, rtt),
        (CongestionControl::NDD(o), CongestionControl::NDD(f)) => crate::ndd::spec_on_ack_post(
            o,
            f,
            now,
            cum_ack,
            rtt,
        ),
        _ => false,
    }
}

/// The send bookkeeping of whichever algorithm runs.
pub open spec fn cca_on_send_post(
    pre: CongestionControl,
    post: CongestionControl,
    now: Time,
    seq_num: u64,
) -> bool {
    match (pre, post) {
        (CongestionControl::NDDSlow(o), CongestionControl::NDDSlow(f)) =>
            crate::ndd_slow::spec_on_send_post(o, f, now, seq_num),
        (CongestionControl::NDD(o), CongestionControl::NDD(f)) => crate::ndd::spec_on_send_post(
            o,
            f,
            now,
            seq_num,
        ),
        _ => false,
    }
}

/// The timeout reaction of whichever algorithm runs: the window
/// collapses to two packets, nothing else changes.
pub open spec fn cca_on_timeout_post(pre: CongestionControl, post: CongestionControl) -> bool {
    match (pre, post) {
        (CongestionControl::NDDSlow(o), CongestionControl::NDDSlow(f)) =>
            crate::ndd_slow::spec_on_timeout_post(o, f),
        (CongestionControl::NDD(o), CongestionControl::NDD(f)) =>
            crate::ndd::spec_on_timeout_post(o, f),
        _ => false,
    }
}

/// The initialisation of whichever algorithm runs: metrics attached
/// exactly when a configuration was given.
pub open spec fn cca_init_post(
    pre: CongestionControl,
    post: CongestionControl,
    cfg: Option<MetricConfig>,
    name: Seq<char>,
) -> bool {
    match (pre, post) {
        (CongestionControl::NDDSlow(o), CongestionControl::NDDSlow(f)) =>
            crate::ndd_slow::spec_init_post(o, f, cfg, name),
        (CongestionControl::NDD(o), CongestionControl::NDD(f)) => crate::ndd::spec_init_post(
            o,
            f,
            cfg,
            name,
        ),
        _ => false,
    }
}

pub struct TcpSender {
    next_hop: NetObjId,
    own_addr: Addr,
    peer_addr: Addr,
    last_sent: SeqNum,
    last_acked: SeqNum,
    last_tx_time: Time,
    tx_scheduled: bool,
    cca: CongestionControl,
}

/// The transmit decision's exact effect: with no pending transmit timer,
/// an open window and the pacing gap elapsed, exactly one data packet
/// (1500 bytes, `seq_num = last_sent`, a fresh uid) goes to the next
/// hop, and a follow-up attempt is timed one pacing gap later while the
/// window stays open; with the gap not yet elapsed, only the attempt is
/// timed. Everything the decision does not touch is unchanged.
pub open spec fn spec_transmit_post(
    pre: TcpSender,
    post: TcpSender,
    self_id: NetObjId,
    now: Time,
    ids_pre: IdAlloc,
    ids_post: IdAlloc,
    emits: Seq<Emit>,
) -> bool {
    &&& post.own_addr_spec() == pre.own_addr_spec()
    &&& post.peer_addr_spec() == pre.peer_addr_spec()
    &&& post.next_hop_id() == pre.next_hop_id()
    &&& post.last_acked_spec() == pre.last_acked_spec()
    &&& post.cca_spec().cwnd_pkts_spec() == pre.cca_spec().cwnd_pkts_spec()
    &&& ({
        let window_open = pre.last_sent_spec() - pre.last_acked_spec()
            < pre.cca_spec().cwnd_pkts_spec() && pre.last_sent_spec() < u64::MAX;
        let gap = pre.cca_spec().intersend_micros_spec();
        let earliest = if pre.last_tx_time_spec().micros + gap <= u64::MAX {
            pre.last_tx_time_spec().micros + gap
        } else {
            u64::MAX as int
        };
        if pre.tx_scheduled_spec() || !window_open {
            &&& emits.len() == 0
            &&& post.last_sent_spec() == pre.last_sent_spec()
            &&& post.tx_scheduled_spec() == pre.tx_scheduled_spec()
            &&& post.cca_spec() == pre.cca_spec()
            &&& ids_post == ids_pre
        } else if earliest <= now.micros {
            let pkt = Packet {
                uid: ids_pre.next_pkt_uid(),
                sent_time: now,
                size_bytes: DATA_SIZE_BYTES,
                src: pre.own_addr_spec(),
                dest: pre.peer_addr_spec(),
                ptype: PacketType::Data { seq_num: pre.last_sent_spec() },
            };
            let still_open = pre.last_sent_spec() + 1 - pre.last_acked_spec()
                < pre.cca_spec().cwnd_pkts_spec();
            &&& post.last_sent_spec() == pre.last_sent_spec() + 1
            &&& post.last_tx_time_spec() == now
            &&& ids_post.issued_one_more(ids_pre)
            &&& cca_on_send_post(
                pre.cca_spec(),
                post.cca_spec(),
                now,
                pre.last_sent_spec(),
            )
            &&& emits[0] == (Emit {
                time: now,
                target: pre.next_hop_id(),
                action: Action::Push(pkt),
            })
            &&& if still_open {
                &&& emits.len() == 2
                &&& post.tx_scheduled_spec()
                &&& emits[1].target == self_id
                &&& emits[1].action == Action::Event(0)
                &&& emits[1].time.micros == if now.micros
                    + post.cca_spec().intersend_micros_spec() <= u64::MAX {
                    now.micros + post.cca_spec().intersend_micros_spec()
                } else {
                    u64::MAX as int
                }
            } else {
                emits.len() == 1 && post.tx_scheduled_spec() == pre.tx_scheduled_spec()
            }
        } else {
            &&& emits.len() == 1
            &&& emits[0] == (Emit {
                time: Time { micros: earliest as u64 },
                target: self_id,
                action: Action::Event(0),
            })
            &&& post.tx_scheduled_spec()
            &&& post.last_sent_spec() == pre.last_sent_spec()
            &&& post.cca_spec() == pre.cca_spec()
            &&& ids_post == ids_pre
        }
    })
}

impl TcpSender {
    /// The sender with its cumulative ack advanced and the algorithm
    /// replaced: the state the transmit decision sees after a valid ack.
    pub closed spec fn spec_with_ack(self, ack_seq: u64, cca: CongestionControl) -> TcpSender {
        TcpSender { last_acked: ack_seq, cca, ..self }
    }

    /// The sender with its transmit timer cleared.
    pub closed spec fn spec_with_tx_cleared(self) -> TcpSender {
        TcpSender { tx_scheduled: false, ..self }
    }

    /// The sender with only the algorithm replaced: the state the
    /// transmit decision sees after a timeout.
    pub closed spec fn spec_with_cca(self, cca: CongestionControl) -> TcpSender {
        TcpSender { cca, ..self }
    }
}

/// A valid ack's full effect: the algorithm heard the ack (with the rtt
/// measured against the echoed send time), `last_acked` advanced to
/// `ack_seq`, and the transmit decision then ran on the updated state,
/// producing `emits`.
/// The round trip an ack measures: now minus the echoed send time,
/// saturating at zero.
pub open spec fn spec_ack_rtt(now: Time, orig_sent_time: Time) -> Time {
    Time {
        micros: if now.micros >= orig_sent_time.micros {
            (now.micros - orig_sent_time.micros) as u64
        } else {
            0u64
        },
    }
}

pub open spec fn spec_push_ack_post(
    pre: TcpSender,
    post: TcpSender,
    self_id: NetObjId,
    now: Time,
    orig_sent_time: Time,
    ack_seq: u64,
    ids_pre: IdAlloc,
    ids_post: IdAlloc,
    emits: Seq<Emit>,
) -> bool {
    exists|mid: CongestionControl|
        {
            &&& #[trigger] cca_on_ack_post(
                pre.cca_spec(),
                mid,
                now,
                ack_seq,
                spec_ack_rtt(now, orig_sent_time),
            )
            &&& spec_transmit_post(
                pre.spec_with_ack(ack_seq, mid),
                post,
                self_id,
                now,
                ids_pre,
                ids_post,
                emits,
            )
        }
}

impl TcpSender {
    pub closed spec fn last_sent_spec(self) -> SeqNum {
        self.last_sent
    }

    pub closed spec fn last_acked_spec(self) -> SeqNum {
        self.last_acked
    }

    pub closed spec fn last_tx_time_spec(self) -> Time {
        self.last_tx_time
    }

    pub closed spec fn tx_scheduled_spec(self) -> bool {
        self.tx_scheduled
    }

    pub closed spec fn own_addr_spec(self) -> Addr {
        self.own_addr
    }

    pub closed spec fn peer_addr_spec(self) -> Addr {
        self.peer_addr
    }

    pub closed spec fn next_hop_id(self) -> NetObjId {
        self.next_hop
    }

    pub closed spec fn cca_spec(self) -> CongestionControl {
        self.cca
    }

    /// The sender invariant: no more acked than sent.
    pub closed spec fn wf(self) -> bool {
        &&& self.last_acked <= self.last_sent
        &&& self.cca.wf()
    }

    pub fn new(next_hop: NetObjId, own_addr: Addr, peer_addr: Addr, start: Time, cca: CongestionControl) -> (s: TcpSender)
        requires
            cca.wf(),
        ensures
            s.wf(),
            s.next_hop_id() == next_hop,
            s.own_addr_spec() == own_addr,
            s.peer_addr_spec() == peer_addr,
            s.last_sent_spec() == 0,
            s.last_acked_spec() == 0,
            s.last_tx_time_spec() == start,
            !s.tx_scheduled_spec(),
            s.cca_spec() == cca,
    {
        TcpSender {
            next_hop,
            own_addr,
            peer_addr,
            last_sent: 0,
            last_acked: 0,
            last_tx_time: start,
            tx_scheduled: false,
            cca,
        }
    }

    pub fn last_acked(&self) -> (r: SeqNum)
        ensures
            r == self.last_acked_spec(),
    {
        self.last_acked
    }

    pub fn last_sent(&self) -> (r: SeqNum)
        ensures
            r == self.last_sent_spec(),
    {
        self.last_sent
    }

    pub fn cca(&self) -> (r: &CongestionControl)
        ensures
            *r == self.cca_spec(),
    {
        &self.cca
    }

    pub fn init(&mut self, name: &str, metrics_config: Option<MetricConfig>)
        requires
            old(self).wf(),
        ensures
            final(self).wf(),
            cca_init_post(old(self).cca_spec(), final(self).cca_spec(), metrics_config, name@),
            final(self).last_sent_spec() == old(self).last_sent_spec(),
            final(self).last_acked_spec() == old(self).last_acked_spec(),
            final(self).last_tx_time_spec() == old(self).last_tx_time_spec(),
            final(self).tx_scheduled_spec() == old(self).tx_scheduled_spec(),
            final(self).own_addr_spec() == old(self).own_addr_spec(),
            final(self).peer_addr_spec() == old(self).peer_addr_spec(),
            final(self).next_hop_id() == old(self).next_hop_id(),
    {
        self.cca.init(name, metrics_config);
    }

    /// Like `init`, with a caller-chosen phase for reproducible runs.
    pub fn init_with_phase(&mut self, name: &str, metrics_config: Option<MetricConfig>, phase: u32)
        requires
            old(self).wf(),
        ensures
            final(self).wf(),
            cca_init_post(old(self).cca_spec(), final(self).cca_spec(), metrics_config, name@),
            final(self).cca_spec() matches CongestionControl::NDDSlow(f) ==> f.phase_spec() == (
            phase as int) % (crate::ndd_slow::CYCLE_STEPS as int),
            final(self).last_sent_spec() == old(self).last_sent_spec(),
            final(self).last_acked_spec() == old(self).last_acked_spec(),
            final(self).last_tx_time_spec() == old(self).last_tx_time_spec(),
            final(self).tx_scheduled_spec() == old(self).tx_scheduled_spec(),
            final(self).own_addr_spec() == old(self).own_addr_spec(),
            final(self).peer_addr_spec() == old(self).peer_addr_spec(),
            final(self).next_hop_id() == old(self).next_hop_id(),
    {
        self.cca.init_with_phase(name, metrics_config, phase);
    }

    pub fn finish(&self) -> (files: Vec<(String, Vec<u8>)>) {
        self.cca.finish()
    }

    /// The transmit decision (see [`spec_transmit_post`]).
    fn try_transmit(&mut self, self_id: NetObjId, now: Time, ids: &mut IdAlloc) -> (emits: Vec<
        Emit,
    >)
        requires
            old(self).wf(),
        ensures
            final(self).wf(),
            spec_transmit_post(
                *old(self),
                *final(self),
                self_id,
                now,
                *old(ids),
                *final(ids),
                emits@,
            ),
    {
        let mut emits: Vec<Emit> = Vec::new();
        if self.tx_scheduled {
            return emits;
        }
        let cwnd = self.cca.get_cwnd();
        let in_flight = self.last_sent - self.last_acked;
        if !(in_flight < cwnd && self.last_sent < u64::MAX) {
            return emits;
        }
        let gap = self.cca.get_intersend_time();
        let earliest = self.last_tx_time.add_time(gap);
        if earliest.micros() <= now.micros() {
            let uid = ids.fresh_pkt_uid();
            let pkt = Packet {
                uid,
                sent_time: now,
                size_bytes: DATA_SIZE_BYTES,
                src: self.own_addr,
                dest: self.peer_addr,
                ptype: PacketType::Data { seq_num: self.last_sent },
            };
            emits.push(Emit { time: now, target: self.next_hop, action: Action::Push(pkt) });
            let seq = self.last_sent;
            self.last_sent = self.last_sent + 1;
            self.last_tx_time = now;
            self.cca.on_send(now, seq, uid);
            if self.last_sent - self.last_acked < cwnd {
                let gap2 = self.cca.get_intersend_time();
                emits.push(
                    Emit {
                        time: now.add_time(gap2),
                        target: self_id,
                        action: Action::Event(0),
                    },
                );
                self.tx_scheduled = true;
            }
        } else {
            emits.push(Emit { time: earliest, target: self_id, action: Action::Event(0) });
            self.tx_scheduled = true;
        }
        emits
    }

    /// Deliver a packet. An ack must acknowledge something new and
    /// nothing beyond what was sent: it strictly advances `last_acked`,
    /// infers losses from the sequence gap, informs the algorithm, and
    /// re-evaluates the transmit decision (see [`spec_push_ack_post`]).
    /// Anything else is swallowed.
    pub fn push(&mut self, self_id: NetObjId, from: NetObjId, now: Time, pkt: Packet, ids: &mut IdAlloc) -> (res: Result<Vec<Emit>, SimError>)
        requires
            old(self).wf(),
        ensures
            final(self).wf(),
            ({
                match pkt.ptype {
                    PacketType::Ack { orig_sent_time, ack_uid, ack_seq } => {
                        if pkt.dest != old(self).own_addr_spec() {
                            res matches Ok(emits) && emits@.len() == 0 && *final(self) == *old(
                                self,
                            ) && *final(ids) == *old(ids)
                        } else if !(ack_seq > old(self).last_acked_spec() && ack_seq <= old(
                            self,
                        ).last_sent_spec()) {
                            res matches Err(e) && e == SimError::InvariantViolation
                                && *final(self) == *old(self) && *final(ids) == *old(ids)
                        } else {
                            &&& res matches Ok(emits) && spec_push_ack_post(
                                *old(self),
                                *final(self),
                                self_id,
                                now,
                                orig_sent_time,
                                ack_seq,
                                *old(ids),
                                *final(ids),
                                emits@,
                            )
                            &&& final(self).last_acked_spec() == ack_seq
                            &&& final(self).last_acked_spec() > old(self).last_acked_spec()
                            &&& final(self).last_sent_spec() >= old(self).last_sent_spec()
                        }
                    },
                    PacketType::Data { .. } => res matches Ok(emits) && emits@.len() == 0
                        && *final(self) == *old(self) && *final(ids) == *old(ids),
                }
            }),
    {
        match pkt.ptype {
            PacketType::Ack { orig_sent_time, ack_uid, ack_seq } => {
                if pkt.dest != self.own_addr {
                    return Ok(Vec::new());
                }
                if !(ack_seq > self.last_acked && ack_seq <= self.last_sent) {
                    return Err(SimError::InvariantViolation);
                }
                let rtt = now.sub_sat(orig_sent_time);
                let num_lost = if ack_seq == self.last_acked + 1 {
                    0
                } else {
                    ack_seq - self.last_acked - 1
                };
                self.last_acked = ack_seq;
                self.cca.on_ack(now, ack_seq, ack_uid, rtt, num_lost);
                let ghost mid_cca = self.cca;
                proof {
                    assert(*self == old(self).spec_with_ack(ack_seq, mid_cca));
                    assert(cca_on_ack_post(old(self).cca_spec(), mid_cca, now, ack_seq, rtt));
                }
                let emits = self.try_transmit(self_id, now, ids);
                proof {
                    let spec_rtt = spec_ack_rtt(now, orig_sent_time);
                    assert(rtt == spec_rtt);
                    assert(cca_on_ack_post(
                        old(self).cca_spec(),
                        mid_cca,
                        now,
                        ack_seq,
                        spec_ack_rtt(now, orig_sent_time),
                    ));
                    assert(spec_transmit_post(
                        old(self).spec_with_ack(ack_seq, mid_cca),
                        *self,
                        self_id,
                        now,
                        *old(ids),
                        *ids,
                        emits@,
                    ));
                    assert(exists|mid: CongestionControl|
                        {
                            &&& #[trigger] cca_on_ack_post(
                                (*old(self)).cca_spec(),
                                mid,
                                now,
                                ack_seq,
                                spec_ack_rtt(now, orig_sent_time),
                            )
                            &&& spec_transmit_post(
                                (*old(self)).spec_with_ack(ack_seq, mid),
                                *self,
                                self_id,
                                now,
                                *old(ids),
                                *ids,
                                emits@,
                            )
                        });
                    assert(spec_push_ack_post(
                        *old(self),
                        *self,
                        self_id,
                        now,
                        orig_sent_time,
                        ack_seq,
                        *old(ids),
                        *ids,
                        emits@,
                    ));
                }
                Ok(emits)
            },
            PacketType::Data { .. } => Ok(Vec::new()),
        }
    }

    /// A timer fired: a transmit attempt (`0`) clears the pending flag
    /// and runs the transmit decision; a timeout (`1`) collapses the
    /// algorithm's window to two packets and then runs the decision.
    /// Any other tag is a modelling bug.
    pub fn event(&mut self, self_id: NetObjId, from: NetObjId, now: Time, uid: u64, ids: &mut IdAlloc) -> (res: Result<Vec<Emit>, SimError>)
        requires
            old(self).wf(),
        ensures
            final(self).wf(),
            uid != 0 && uid != 1 ==> (res matches Err(e) && e == SimError::InvariantViolation
                && *final(self) == *old(self) && *final(ids) == *old(ids)),
            uid == 0 ==> (res matches Ok(emits) && spec_transmit_post(
                old(self).spec_with_tx_cleared(),
                *final(self),
                self_id,
                now,
                *old(ids),
                *final(ids),
                emits@,
            )),
            uid == 1 ==> (res matches Ok(emits) && exists|mid: CongestionControl|
                {
                    &&& #[trigger] cca_on_timeout_post(old(self).cca_spec(), mid)
                    &&& mid.cwnd_pkts_spec() == 2
                    &&& spec_transmit_post(
                        old(self).spec_with_cca(mid),
                        *final(self),
                        self_id,
                        now,
                        *old(ids),
                        *final(ids),
                        emits@,
                    )
                }),
            res is Ok ==> final(self).last_acked_spec() == old(self).last_acked_spec(),
    {
        if uid == 0 {
            self.tx_scheduled = false;
            proof {
                assert(*self == old(self).spec_with_tx_cleared());
            }
            let emits = self.try_transmit(self_id, now, ids);
            Ok(emits)
        } else if uid == 1 {
            self.cca.on_timeout();
            let ghost mid_cca = self.cca;
            proof {
                assert(*self == old(self).spec_with_cca(mid_cca));
                assert(cca_on_timeout_post(old(self).cca_spec(), mid_cca));
            }
            let emits = self.try_transmit(self_id, now, ids);
            Ok(emits)
        } else {
            Err(SimError::InvariantViolation)
        }
    }

    /// Acks strictly increase `last_acked`, and never beyond
    /// `last_sent`: the sender invariant.
    pub proof fn lemma_acked_bounded(self)
        requires
            self.wf(),
        ensures
            self.last_acked_spec() <= self.last_sent_spec(),
    {
    }
}

} // verus!
