//! The NDD congestion-control algorithm, RTT-phased variant with an
//! explicit finite-state machine.
//!
//! NDD keeps one record per RTT-scale step. From paired send/ack rate
//! observations of a probe step it estimates the bottleneck fair share
//! `F`, the capacity `C = (snd·ack − F·ack)/(snd − ack)`, and the flow
//! count `N = C / F`, then drives the window so the queueing delay
//! tracks `N · minRTT`. All window and rate arithmetic is unsigned
//! fixed point (scale [`FP_SCALE`]), with saturation standing in for the
//! infinities of real arithmetic in degenerate corners.

use vstd::prelude::*;
use crate::base::{PktId, SeqNum};
use crate::fixedpoint::{
    c_estimate_fp, div_fp_sat, mul_div_sat, rate_fp_of, round_fp, spec_c_estimate_fp,
    spec_div_fp_sat, spec_mul_div_sat, spec_rate_fp, spec_round_fp, FP_SCALE,
};
use crate::metrics::{u64_to_string, Metric, MetricConfig, MetricRegistry};
use crate::rtt_window::RTTWindow;
use crate::time::{Time, MICROS_PER_SEC};

verus! {

/// The window floor, in packets.
pub const MIN_CWND_PKTS: u64 = 8;

/// The window floor in fixed point: `cwnd` never observes below this
/// after a window update.
pub const MIN_CWND_FP: u64 = MIN_CWND_PKTS * FP_SCALE;

/// The least spacing between transmissions.
pub const MIN_INTERSEND_MICROS: u64 = 1000;

pub const CRUISE_STEPS: u32 = 10;

pub const PROBE_STEPS: u32 = 2;

pub const DRAIN_STEPS: u32 = 1;

/// Length of the phase cycle: cruise, probe, then drain.
pub const CYCLE_STEPS: u32 = CRUISE_STEPS + PROBE_STEPS + DRAIN_STEPS;

/// Bound on the record history: one full phase cycle.
pub const N_RECORDS: usize = 13;

/// How many of the most recent ack-complete cruise records the
/// fair-share average runs over: half the cruise steps.
pub const F_AVG_RECORDS: usize = (CRUISE_STEPS / 2) as usize;

/// The per-step action of the NDD state machine.
#[derive(Clone, Copy, Debug, PartialEq, Eq, Structural)]
pub enum NDDFSMAction {
    SlowStart,
    FirstCruise,
    Cruise,
    FirstProbe,
    Probe,
    Drain,
}

impl NDDFSMAction {
    /// A stable label for metric rows.
    pub fn label(&self) -> (r: &'static str)
        ensures
            r@ == spec_action_label(*self),
    {
        match self {
            NDDFSMAction::SlowStart => "SlowStart",
            NDDFSMAction::FirstCruise => "FirstCruise",
            NDDFSMAction::Cruise => "Cruise",
            NDDFSMAction::FirstProbe => "FirstProbe",
            NDDFSMAction::Probe => "Probe",
            NDDFSMAction::Drain => "Drain",
        }
    }
}

pub open spec fn spec_action_label(a: NDDFSMAction) -> Seq<char> {
    match a {
        NDDFSMAction::SlowStart => "SlowStart"@,
        NDDFSMAction::FirstCruise => "FirstCruise"@,
        NDDFSMAction::Cruise => "Cruise"@,
        NDDFSMAction::FirstProbe => "FirstProbe"@,
        NDDFSMAction::Probe => "Probe"@,
        NDDFSMAction::Drain => "Drain"@,
    }
}

/// The action a phase selects: phase 0 reassesses the estimates, the
/// rest of the cruise steps hold, one step probes at higher rate, the
/// next holds the probe, and the last drains back to the cruise window.
pub open spec fn spec_action_from_phase(phase: u32) -> NDDFSMAction {
    let p = (phase as int) % (CYCLE_STEPS as int);
    if p == 0 {
        NDDFSMAction::FirstCruise
    } else if p < CRUISE_STEPS {
        NDDFSMAction::Cruise
    } else if p == CRUISE_STEPS {
        NDDFSMAction::FirstProbe
    } else if p < CRUISE_STEPS + PROBE_STEPS {
        NDDFSMAction::Probe
    } else {
        NDDFSMAction::Drain
    }
}

pub fn get_action_from_phase(phase: u32) -> (a: NDDFSMAction)
    ensures
        a == spec_action_from_phase(phase),
{
    let p = phase % CYCLE_STEPS;
    if p == 0 {
        NDDFSMAction::FirstCruise
    } else if p < CRUISE_STEPS {
        NDDFSMAction::Cruise
    } else if p == CRUISE_STEPS {
        NDDFSMAction::FirstProbe
    } else if p < CRUISE_STEPS + PROBE_STEPS {
        NDDFSMAction::Probe
    } else {
        NDDFSMAction::Drain
    }
}

/// One send epoch. A record opens at the first send after the previous
/// record completed its send half; its send half closes when the
/// cumulative ack for its first packet arrives, and its ack half closes
/// when the cumulative ack for its last packet arrives. Fields, once
/// set, are never overwritten.
#[derive(Clone, Copy, Debug, PartialEq, Eq, Structural)]
pub struct Record {
    pub snd_beg_seq: SeqNum,
    pub snd_beg_time: Time,
    pub snd_end_seq: Option<SeqNum>,
    pub snd_end_time: Option<Time>,
    pub ack_beg_seq: Option<SeqNum>,
    pub ack_beg_time: Option<Time>,
    pub ack_end_seq: Option<SeqNum>,
    pub ack_end_time: Option<Time>,
    pub snd_complete: bool,
    pub ack_complete: bool,
    pub cwnd_fp: u64,
    pub phase: u32,
    pub action: NDDFSMAction,
}

pub open spec fn spec_snd_pkts(r: Record) -> int {
    match r.snd_end_seq {
        Some(e) => if e >= r.snd_beg_seq {
            e - r.snd_beg_seq
        } else {
            0
        },
        None => 0,
    }
}

pub open spec fn spec_snd_dur(r: Record) -> int {
    match r.snd_end_time {
        Some(t) => if t.micros >= r.snd_beg_time.micros {
            t.micros - r.snd_beg_time.micros
        } else {
            0
        },
        None => 0,
    }
}

pub open spec fn spec_ack_pkts(r: Record) -> int {
    match (r.ack_beg_seq, r.ack_end_seq) {
        (Some(b), Some(e)) => if e >= b {
            e - b
        } else {
            0
        },
        _ => 0,
    }
}

pub open spec fn spec_ack_dur(r: Record) -> int {
    match (r.ack_beg_time, r.ack_end_time) {
        (Some(b), Some(e)) => if e.micros >= b.micros {
            e.micros - b.micros
        } else {
            0
        },
        _ => 0,
    }
}

/// Send rate of a record, packets per second in fixed point; zero on a
/// degenerate (unset or empty) duration.
pub open spec fn spec_snd_rate_fp(r: Record) -> int {
    spec_rate_fp(spec_snd_pkts(r), spec_snd_dur(r))
}

pub open spec fn spec_ack_rate_fp(r: Record) -> int {
    spec_rate_fp(spec_ack_pkts(r), spec_ack_dur(r))
}

impl Record {
    pub fn snd_rate_fp(&self) -> (r: u64)
        ensures
            r == spec_snd_rate_fp(*self),
    {
        let pkts: u64 = match self.snd_end_seq {
            Some(e) => if e >= self.snd_beg_seq {
                e - self.snd_beg_seq
            } else {
                0
            },
            None => 0,
        };
        let dur: u64 = match self.snd_end_time {
            Some(t) => if t.micros >= self.snd_beg_time.micros {
                t.micros - self.snd_beg_time.micros
            } else {
                0
            },
            None => 0,
        };
        rate_fp_of(pkts as u128, dur as u128)
    }

    pub fn ack_rate_fp(&self) -> (r: u64)
        ensures
            r == spec_ack_rate_fp(*self),
    {
        let pkts: u64 = match (self.ack_beg_seq, self.ack_end_seq) {
            (Some(b), Some(e)) => if e >= b {
                e - b
            } else {
                0
            },
            _ => 0,
        };
        let dur: u64 = match (self.ack_beg_time, self.ack_end_time) {
            (Some(b), Some(e)) => if e.micros >= b.micros {
                e.micros - b.micros
            } else {
                0
            },
            _ => 0,
        };
        rate_fp_of(pkts as u128, dur as u128)
    }

    /// The capacity estimate from this record's rates, given a fair
    /// share estimate; only meaningful when the send rate exceeds the
    /// ack rate.
    pub fn c_estimate(&self, f_estimate_fp: u64) -> (r: u64)
        requires
            spec_snd_rate_fp(*self) > spec_ack_rate_fp(*self),
        ensures
            r == spec_c_estimate_fp(
                spec_snd_rate_fp(*self) as u64,
                spec_ack_rate_fp(*self) as u64,
                f_estimate_fp,
            ),
    {
        let snd = self.snd_rate_fp();
        let ack = self.ack_rate_fp();
        c_estimate_fp(snd, ack, f_estimate_fp)
    }

    pub fn acked_pkts(&self) -> (r: u64)
        ensures
            r == spec_ack_pkts(*self),
    {
        match (self.ack_beg_seq, self.ack_end_seq) {
            (Some(b), Some(e)) => if e >= b {
                e - b
            } else {
                0
            },
            _ => 0,
        }
    }

    pub fn ack_duration_micros(&self) -> (r: u64)
        ensures
            r == spec_ack_dur(*self),
    {
        match (self.ack_beg_time, self.ack_end_time) {
            (Some(b), Some(e)) => if e.micros >= b.micros {
                e.micros - b.micros
            } else {
                0
            },
            _ => 0,
        }
    }
}

/// Closing the send half of the newest record: the cumulative ack for
/// its first packet arrived at `now`.
pub open spec fn spec_close_snd(r: Record, cum_ack: u64, now: Time) -> Record {
    Record {
        snd_complete: true,
        ack_beg_seq: Some((cum_ack - 1) as u64),
        ack_beg_time: Some(now),
        ..r
    }
}

/// Closing the ack half of the second-newest record: the cumulative ack
/// for its last packet arrived at `now`.
pub open spec fn spec_close_ack(r: Record, cum_ack: u64, now: Time) -> Record {
    Record {
        ack_complete: true,
        ack_end_seq: Some((cum_ack - 1) as u64),
        ack_end_time: Some(now),
        ..r
    }
}

/// How an arriving cumulative ack updates the record history, and
/// whether it completed the newest record's send half (which is what
/// advances the phase). An ack for the newest record's first packet
/// closes its send half; an ack for the second-newest record's last
/// packet closes that record entirely; anything else changes nothing.
/// Each half closes at most once: fields, once set, are never
/// overwritten (a duplicate matching ack cannot arrive from the sender,
/// which only passes strictly advancing acks on).
pub open spec fn spec_close_records(rs: Seq<Record>, cum_ack: u64, now: Time) -> (Seq<Record>, bool) {
    if rs.len() == 0 {
        (rs, false)
    } else {
        let last = rs[rs.len() - 1];
        if cum_ack >= 1 && cum_ack - 1 == last.snd_beg_seq && !last.snd_complete {
            (rs.update(rs.len() - 1, spec_close_snd(last, cum_ack, now)), true)
        } else if cum_ack >= 1 && cum_ack - 1 < last.snd_beg_seq && rs.len() >= 2 {
            let slr = rs[rs.len() - 2];
            match slr.snd_end_seq {
                Some(e) => if cum_ack - 1 == e && !slr.ack_complete {
                    (rs.update(rs.len() - 2, spec_close_ack(slr, cum_ack, now)), false)
                } else {
                    (rs, false)
                },
                None => (rs, false),
            }
        } else {
            (rs, false)
        }
    }
}

/// Keep at most the newest `N_RECORDS` records.
pub open spec fn spec_trim(rs: Seq<Record>) -> Seq<Record> {
    if rs.len() > N_RECORDS {
        rs.skip(rs.len() - N_RECORDS as int)
    } else {
        rs
    }
}

pub open spec fn spec_has_ack_complete(rs: Seq<Record>) -> bool {
    exists|i: int| 0 <= i < rs.len() && (#[trigger] rs[i]).ack_complete
}

/// The newest record that completed its ack half during a probe step.
pub open spec fn spec_last_probe_idx(rs: Seq<Record>) -> Option<int>
    decreases rs.len(),
{
    if rs.len() == 0 {
        None
    } else if rs.last().ack_complete && rs.last().action == NDDFSMAction::Probe {
        Some(rs.len() - 1)
    } else {
        spec_last_probe_idx(rs.drop_last())
    }
}

/// Acked packets and ack duration summed over the newest ack-complete
/// cruise records, at most `budget` of them.
pub open spec fn spec_f_sums(rs: Seq<Record>, budget: nat) -> (int, int)
    decreases rs.len(),
{
    if rs.len() == 0 || budget == 0 {
        (0, 0)
    } else {
        let r = rs.last();
        if r.ack_complete && r.action == NDDFSMAction::Cruise {
            let rest = spec_f_sums(rs.drop_last(), (budget - 1) as nat);
            (rest.0 + spec_ack_pkts(r), rest.1 + spec_ack_dur(r))
        } else {
            spec_f_sums(rs.drop_last(), budget)
        }
    }
}

/// The retarget on the first cruise step:
/// `F` is the average ack rate over recent ack-complete cruise records,
/// `N` comes from the newest ack-complete probe record (one flow when
/// its ack rate kept up with its send rate), the target delay is
/// `N · minRTT`, and the window moves half way toward
/// `cwnd · target/average`, clamped within a factor 9/8 per step.
/// Yields `(applied, cwnd', f, n, target_delay_micros)`; without a
/// probe record the step behaves like a plain cruise.
pub open spec fn spec_first_cruise(rs: Seq<Record>, cwnd: u64, min_rtt_us: u64, avg_us: u64) -> (
    bool,
    int,
    int,
    int,
    int,
) {
    match spec_last_probe_idx(rs) {
        None => (false, cwnd as int, 0, 0, 0),
        Some(i) => {
            let probe = rs[i];
            let sums = spec_f_sums(rs, F_AVG_RECORDS as nat);
            let f = spec_rate_fp(sums.0, sums.1);
            let snd = spec_snd_rate_fp(probe);
            let ack = spec_ack_rate_fp(probe);
            let n = if ack >= snd {
                FP_SCALE as int
            } else {
                spec_div_fp_sat(spec_c_estimate_fp(snd as u64, ack as u64, f as u64) as u64, f as u64)
            };
            let td = spec_mul_div_sat(n as u64, min_rtt_us, FP_SCALE);
            let target = if avg_us == 0 {
                u64::MAX as int
            } else {
                spec_mul_div_sat(cwnd, td as u64, avg_us)
            };
            let mean = (cwnd + target) / 2;
            let lo = spec_mul_div_sat(cwnd, 8, 9);
            let hi = spec_mul_div_sat(cwnd, 9, 8);
            let clamped = if mean < lo {
                lo
            } else if mean > hi {
                hi
            } else {
                mean
            };
            (true, clamped, f, n, td)
        },
    }
}

/// The window a step's action yields, before the floor:
/// `(cwnd', cruise_cwnd')`.
pub open spec fn spec_action_cwnd(
    action: NDDFSMAction,
    rs: Seq<Record>,
    cwnd: u64,
    cruise_cwnd: u64,
    min_rtt_us: u64,
    avg_us: u64,
) -> (int, int) {
    match action {
        NDDFSMAction::SlowStart => {
            let c: int = if 2 * avg_us <= 3 * min_rtt_us {
                if 2 * cwnd <= u64::MAX {
                    2 * cwnd
                } else {
                    u64::MAX as int
                }
            } else {
                (cwnd / 2) as int
            };
            (c, c)
        },
        NDDFSMAction::FirstCruise => {
            let c = spec_first_cruise(rs, cwnd, min_rtt_us, avg_us).1;
            (c, c)
        },
        NDDFSMAction::Cruise => (cwnd as int, cruise_cwnd as int),
        NDDFSMAction::FirstProbe => (spec_mul_div_sat(cwnd, 5, 4), cruise_cwnd as int),
        NDDFSMAction::Probe => (cwnd as int, cruise_cwnd as int),
        NDDFSMAction::Drain => (cruise_cwnd as int, cruise_cwnd as int),
    }
}

/// The paced spacing `2·srtt/cwnd` in microseconds, saturated both for
/// a huge quotient and for a zero window.
pub open spec fn spec_intersend_micros(srtt_us: u64, cwnd_fp: u64) -> int {
    if cwnd_fp == 0 {
        u64::MAX as int
    } else {
        spec_mul_div_sat(srtt_us, (2 * FP_SCALE) as u64, cwnd_fp)
    }
}

/// The window floor applied after every update.
pub open spec fn spec_floor_cwnd(c: int) -> int {
    if c >= MIN_CWND_FP {
        c
    } else {
        MIN_CWND_FP as int
    }
}

/// The index an ack-complete probe search returns is a valid index.
pub proof fn lemma_last_probe_in_range(rs: Seq<Record>)
    ensures
        match spec_last_probe_idx(rs) {
            Some(i) => 0 <= i < rs.len(),
            None => true,
        },
    decreases rs.len(),
{
    if rs.len() > 0 && !(rs.last().ack_complete && rs.last().action == NDDFSMAction::Probe) {
        lemma_last_probe_in_range(rs.drop_last());
    }
}

pub struct NDDSlow {
    base_rtt: RTTWindow,
    min_rtt: Time,
    records: Vec<Record>,
    cwnd_fp: u64,
    prev_cwnd_fp: u64,
    cruise_cwnd_fp: u64,
    phase: u32,
    action: NDDFSMAction,
    f_estimate_fp: u64,
    n_estimate_fp: u64,
    target_delay_micros: u64,
    metric_registry: Option<MetricRegistry>,
    ack_metric: Option<usize>,
}

impl NDDSlow {
    pub closed spec fn records_view(self) -> Seq<Record> {
        self.records@
    }

    pub closed spec fn cwnd_fp_spec(self) -> u64 {
        self.cwnd_fp
    }

    pub closed spec fn cruise_cwnd_fp_spec(self) -> u64 {
        self.cruise_cwnd_fp
    }

    pub closed spec fn prev_cwnd_fp_spec(self) -> u64 {
        self.prev_cwnd_fp
    }

    pub closed spec fn phase_spec(self) -> u32 {
        self.phase
    }

    pub closed spec fn action_spec(self) -> NDDFSMAction {
        self.action
    }

    pub closed spec fn min_rtt_micros(self) -> u64 {
        self.min_rtt.micros
    }

    pub closed spec fn srtt_micros(self) -> u64 {
        self.base_rtt.srtt_micros()
    }

    pub closed spec fn has_rtt_sample(self) -> bool {
        self.base_rtt.has_seen_sample()
    }

    pub closed spec fn f_estimate_fp_spec(self) -> u64 {
        self.f_estimate_fp
    }

    pub closed spec fn n_estimate_fp_spec(self) -> u64 {
        self.n_estimate_fp
    }

    pub closed spec fn target_delay_micros_spec(self) -> u64 {
        self.target_delay_micros
    }

    /// Average queueing delay after this ack: smoothed RTT minus the
    /// running minimum (saturating at zero).
    pub open spec fn spec_avg_delay(self) -> int {
        if self.srtt_micros() >= self.min_rtt_micros() {
            self.srtt_micros() - self.min_rtt_micros()
        } else {
            0
        }
    }

    pub closed spec fn metrics_wf(self) -> bool {
        match self.ack_metric {
            Some(h) => self.metric_registry matches Some(reg) && h < reg.metrics_view().len(),
            None => true,
        }
    }

    /// How many rows the ack metric has collected (zero without one).
    pub closed spec fn metric_rows_len(self) -> int {
        match (self.metric_registry, self.ack_metric) {
            (Some(reg), Some(h)) => if h < reg.metrics_view().len() {
                reg.metrics_view()[h as int].rows_spec().len() as int
            } else {
                0
            },
            _ => 0,
        }
    }

    pub closed spec fn wf(self) -> bool {
        &&& self.phase < CYCLE_STEPS
        &&& self.metrics_wf()
    }

    pub fn get_phase(&self) -> (r: u32)
        ensures
            r == self.phase_spec(),
    {
        self.phase
    }

    pub fn get_last_action(&self) -> (r: NDDFSMAction)
        ensures
            r == self.action_spec(),
    {
        self.action
    }

    pub fn get_f_estimate_fp(&self) -> (r: u64)
        ensures
            r == self.f_estimate_fp_spec(),
    {
        self.f_estimate_fp
    }

    pub fn get_n_estimate_fp(&self) -> (r: u64)
        ensures
            r == self.n_estimate_fp_spec(),
    {
        self.n_estimate_fp
    }

    pub fn get_target_delay_micros(&self) -> (r: u64)
        ensures
            r == self.target_delay_micros_spec(),
    {
        self.target_delay_micros
    }

    pub fn get_min_rtt_micros(&self) -> (r: u64)
        ensures
            r == self.min_rtt_micros(),
    {
        self.min_rtt.micros
    }

    pub fn num_records(&self) -> (r: usize)
        ensures
            r == self.records_view().len(),
    {
        self.records.len()
    }

    /// A record of the bounded history, by age (oldest first).
    pub fn get_record(&self, i: usize) -> (r: Option<Record>)
        ensures
            match r {
                Some(rec) => i < self.records_view().len() && rec == self.records_view()[i as int],
                None => i >= self.records_view().len(),
            },
    {
        if i < self.records.len() {
            Some(self.records[i])
        } else {
            None
        }
    }

    /// The most recent record, if any.
    pub fn last_record(&self) -> (r: Option<Record>)
        ensures
            match r {
                Some(rec) => self.records_view().len() > 0 && rec == self.records_view().last(),
                None => self.records_view().len() == 0,
            },
    {
        let n = self.records.len();
        if n == 0 {
            None
        } else {
            Some(self.records[n - 1])
        }
    }

    /// The window in whole packets: `round(cwnd)`.
    pub fn get_cwnd(&self) -> (r: u64)
        ensures
            r == spec_round_fp(self.cwnd_fp_spec()),
    {
        round_fp(self.cwnd_fp)
    }

    /// The least spacing between sends: `max(1 ms, 2·srtt/cwnd)`, so
    /// never below one millisecond. A zero window (possible only
    /// transiently, before the floor is reapplied) paces as slowly as
    /// representable.
    pub fn get_intersend_time(&self) -> (r: Time)
        ensures
            r.micros == if spec_intersend_micros(self.srtt_micros(), self.cwnd_fp_spec())
                >= MIN_INTERSEND_MICROS {
                spec_intersend_micros(self.srtt_micros(), self.cwnd_fp_spec())
            } else {
                MIN_INTERSEND_MICROS as int
            },
            r.micros >= MIN_INTERSEND_MICROS,
    {
        let paced = if self.cwnd_fp == 0 {
            u64::MAX
        } else {
            mul_div_sat(self.base_rtt.get_srtt().micros(), 2 * FP_SCALE, self.cwnd_fp)
        };
        if paced >= MIN_INTERSEND_MICROS {
            Time { micros: paced }
        } else {
            Time { micros: MIN_INTERSEND_MICROS }
        }
    }

    /// A timeout collapses the window to two packets; the floor is
    /// reapplied only at the next window update.
    pub fn on_timeout(&mut self)
        requires
            old(self).wf(),
        ensures
            final(self).wf(),
            spec_on_timeout_post(*old(self), *final(self)),
    {
        self.cwnd_fp = 2 * FP_SCALE;
    }

    /// Bookkeeping after each transmission: open a new record if the
    /// current one has completed its send half (or none exists), else
    /// extend the current record's send tail.
    pub fn on_send(&mut self, now: Time, seq_num: SeqNum, uid: PktId)
        requires
            old(self).wf(),
        ensures
            final(self).wf(),
            spec_on_send_post(*old(self), *final(self), now, seq_num),
    {
        let n = self.records.len();
        let open_new = if n == 0 {
            true
        } else {
            self.records[n - 1].snd_complete
        };
        if open_new {
            self.records.push(
                Record {
                    snd_beg_seq: seq_num,
                    snd_beg_time: now,
                    snd_end_seq: None,
                    snd_end_time: None,
                    ack_beg_seq: None,
                    ack_beg_time: None,
                    ack_end_seq: None,
                    ack_end_time: None,
                    snd_complete: false,
                    ack_complete: false,
                    cwnd_fp: self.cwnd_fp,
                    phase: self.phase,
                    action: self.action,
                },
            );
        } else {
            let mut rec = self.records[n - 1];
            rec.snd_end_seq = Some(seq_num);
            rec.snd_end_time = Some(now);
            self.records.set(n - 1, rec);
        }
    }

    /// Record bookkeeping for an arriving cumulative ack; true when the
    /// newest record's send half just closed (a phase step).
    fn close_records(&mut self, cum_ack: u64, now: Time) -> (upd: bool)
        requires
            old(self).wf(),
        ensures
            final(self).wf(),
            ({
                let r = spec_close_records(old(self).records_view(), cum_ack, now);
                final(self).records_view() == r.0 && upd == r.1
            }),
            final(self).cwnd_fp_spec() == old(self).cwnd_fp_spec(),
            final(self).cruise_cwnd_fp_spec() == old(self).cruise_cwnd_fp_spec(),
            final(self).prev_cwnd_fp_spec() == old(self).prev_cwnd_fp_spec(),
            final(self).phase_spec() == old(self).phase_spec(),
            final(self).action_spec() == old(self).action_spec(),
            final(self).min_rtt_micros() == old(self).min_rtt_micros(),
            final(self).srtt_micros() == old(self).srtt_micros(),
            final(self).f_estimate_fp_spec() == old(self).f_estimate_fp_spec(),
            final(self).n_estimate_fp_spec() == old(self).n_estimate_fp_spec(),
            final(self).target_delay_micros_spec() == old(self).target_delay_micros_spec(),
            final(self).metric_rows_len() == old(self).metric_rows_len(),
            final(self).has_ack_metric() == old(self).has_ack_metric(),
            final(self).has_rtt_sample() == old(self).has_rtt_sample(),
            final(self).registry_spec() is Some == old(self).registry_spec() is Some,
    {
        let n = self.records.len();
        if n == 0 {
            return false;
        }
        let last = self.records[n - 1];
        if cum_ack >= 1 && cum_ack - 1 == last.snd_beg_seq && !last.snd_complete {
            let mut rec = last;
            rec.snd_complete = true;
            rec.ack_beg_seq = Some(cum_ack - 1);
            rec.ack_beg_time = Some(now);
            self.records.set(n - 1, rec);
            proof {
                assert(rec == spec_close_snd(last, cum_ack, now));
            }
            true
        } else if cum_ack >= 1 && cum_ack - 1 < last.snd_beg_seq && n >= 2 {
            let slr = self.records[n - 2];
            match slr.snd_end_seq {
                Some(e) => {
                    if cum_ack - 1 == e && !slr.ack_complete {
                        let mut rec = slr;
                        rec.ack_complete = true;
                        rec.ack_end_seq = Some(cum_ack - 1);
                        rec.ack_end_time = Some(now);
                        self.records.set(n - 2, rec);
                        proof {
                            assert(rec == spec_close_ack(slr, cum_ack, now));
                        }
                    }
                },
                None => {},
            }
            false
        } else {
            false
        }
    }

    /// Drop the oldest records beyond the bounded history.
    #[verifier::loop_isolation(false)]
    fn trim_records(&mut self)
        requires
            old(self).wf(),
        ensures
            final(self).wf(),
            final(self).records_view() == spec_trim(old(self).records_view()),
            final(self).cwnd_fp_spec() == old(self).cwnd_fp_spec(),
            final(self).cruise_cwnd_fp_spec() == old(self).cruise_cwnd_fp_spec(),
            final(self).prev_cwnd_fp_spec() == old(self).prev_cwnd_fp_spec(),
            final(self).phase_spec() == old(self).phase_spec(),
            final(self).action_spec() == old(self).action_spec(),
            final(self).min_rtt_micros() == old(self).min_rtt_micros(),
            final(self).srtt_micros() == old(self).srtt_micros(),
            final(self).f_estimate_fp_spec() == old(self).f_estimate_fp_spec(),
            final(self).n_estimate_fp_spec() == old(self).n_estimate_fp_spec(),
            final(self).target_delay_micros_spec() == old(self).target_delay_micros_spec(),
            final(self).metric_rows_len() == old(self).metric_rows_len(),
            final(self).has_ack_metric() == old(self).has_ack_metric(),
            final(self).has_rtt_sample() == old(self).has_rtt_sample(),
            final(self).registry_spec() is Some == old(self).registry_spec() is Some,
    {
        let ghost orig = old(self).records@;
        proof {
            assert(self.records@ =~= orig.skip(orig.len() - self.records@.len()));
        }
        while self.records.len() > N_RECORDS
            invariant
                self.records@.len() <= orig.len(),
                self.records@ == orig.skip(orig.len() - self.records@.len()),
                orig.len() > N_RECORDS ==> self.records@.len() >= N_RECORDS,
                orig.len() <= N_RECORDS ==> self.records@ == orig,
                self.cwnd_fp == old(self).cwnd_fp,
                self.cruise_cwnd_fp == old(self).cruise_cwnd_fp,
                self.prev_cwnd_fp == old(self).prev_cwnd_fp,
                self.phase == old(self).phase,
                self.action == old(self).action,
                self.min_rtt == old(self).min_rtt,
                self.base_rtt == old(self).base_rtt,
                self.f_estimate_fp == old(self).f_estimate_fp,
                self.n_estimate_fp == old(self).n_estimate_fp,
                self.target_delay_micros == old(self).target_delay_micros,
                self.metric_registry == old(self).metric_registry,
                self.ack_metric == old(self).ack_metric,
            decreases self.records@.len(),
        {
            let ghost before = self.records@;
            self.records.remove(0);
            proof {
                let k = orig.len() - before.len();
                assert(self.records@ =~= before.subrange(1, before.len() as int));
                assert(orig.skip(k).subrange(1, orig.skip(k).len() as int) =~= orig.skip(k + 1));
            }
        }
    }

    /// Whether any record has completed its ack half.
    #[verifier::loop_isolation(false)]
    fn has_complete_record(&self) -> (r: bool)
        ensures
            r == spec_has_ack_complete(self.records_view()),
    {
        let n = self.records.len();
        let mut i: usize = 0;
        while i < n
            invariant
                0 <= i <= n,
                forall|j: int| 0 <= j < i ==> !(#[trigger] self.records@[j]).ack_complete,
            decreases n - i,
        {
            if self.records[i].ack_complete {
                return true;
            }
            i = i + 1;
        }
        false
    }

    /// The newest ack-complete probe record's index, if any.
    #[verifier::loop_isolation(false)]
    fn find_last_probe(&self) -> (r: Option<usize>)
        ensures
            match r {
                Some(i) => spec_last_probe_idx(self.records_view()) == Some(i as int),
                None => spec_last_probe_idx(self.records_view()) is None,
            },
    {
        let n = self.records.len();
        let mut i: usize = n;
        proof {
            assert(self.records@.take(n as int) =~= self.records@);
        }
        while i > 0
            invariant
                0 <= i <= n,
                spec_last_probe_idx(self.records@) == spec_last_probe_idx(
                    self.records@.take(i as int),
                ),
            decreases i,
        {
            let rec = self.records[i - 1];
            proof {
                let pre = self.records@.take(i as int);
                assert(pre.last() == self.records@[i - 1]);
                assert(pre.drop_last() =~= self.records@.take(i - 1));
            }
            if rec.ack_complete && matches!(rec.action, NDDFSMAction::Probe) {
                return Some(i - 1);
            }
            i = i - 1;
        }
        proof {
            assert(self.records@.take(0) =~= Seq::<Record>::empty());
        }
        None
    }

    /// Acked packets and ack time summed over the newest ack-complete
    /// cruise records, at most `F_AVG_RECORDS` of them.
    #[verifier::loop_isolation(false)]
    fn f_sums(&self) -> (r: (u128, u128))
        ensures
            (r.0 as int, r.1 as int) == spec_f_sums(self.records_view(), F_AVG_RECORDS as nat),
            r.0 <= 16 * (u64::MAX as int),
            r.1 <= 16 * (u64::MAX as int),
    {
        let n = self.records.len();
        let mut pkts: u128 = 0;
        let mut dur: u128 = 0;
        let mut budget: usize = F_AVG_RECORDS;
        let mut i: usize = n;
        proof {
            assert(self.records@.take(n as int) =~= self.records@);
        }
        while i > 0 && budget > 0
            invariant
                0 <= i <= n,
                budget <= F_AVG_RECORDS,
                ({
                    let rest = spec_f_sums(self.records@.take(i as int), budget as nat);
                    (pkts + rest.0, dur + rest.1) == spec_f_sums(
                        self.records@,
                        F_AVG_RECORDS as nat,
                    )
                }),
                pkts <= (F_AVG_RECORDS - budget) * (u64::MAX as int),
                dur <= (F_AVG_RECORDS - budget) * (u64::MAX as int),
            decreases i,
        {
            let rec = self.records[i - 1];
            proof {
                let pre = self.records@.take(i as int);
                assert(pre.last() == self.records@[i - 1]);
                assert(pre.drop_last() =~= self.records@.take(i - 1));
            }
            if rec.ack_complete && matches!(rec.action, NDDFSMAction::Cruise) {
                pkts = pkts + (rec.acked_pkts() as u128);
                dur = dur + (rec.ack_duration_micros() as u128);
                budget = budget - 1;
                proof {
                    assert(((F_AVG_RECORDS - budget) as int) * (u64::MAX as int) == ((
                    F_AVG_RECORDS - budget - 1) as int) * (u64::MAX as int) + u64::MAX)
                        by (nonlinear_arith);
                }
            }
            i = i - 1;
        }
        proof {
            if budget > 0 {
                assert(self.records@.take(0) =~= Seq::<Record>::empty());
            }
            assert(((F_AVG_RECORDS - budget) as int) * (u64::MAX as int) <= 16 * (
            u64::MAX as int)) by (nonlinear_arith)
                requires
                    0 <= F_AVG_RECORDS - budget <= 16,
            ;
        }
        (pkts, dur)
    }

    /// The first cruise step of a cycle: reassess the fair share, the
    /// flow count and the target delay, and retarget the window (see
    /// [`spec_first_cruise`]). Without an ack-complete probe record the
    /// step holds everything, like a plain cruise.
    fn first_cruise_update(&mut self, avg_us: u64)
        requires
            old(self).wf(),
        ensures
            final(self).wf(),
            ({
                let fc = spec_first_cruise(
                    old(self).records_view(),
                    old(self).cwnd_fp_spec(),
                    old(self).min_rtt_micros(),
                    avg_us,
                );
                if fc.0 {
                    &&& final(self).cwnd_fp_spec() == fc.1
                    &&& final(self).f_estimate_fp_spec() == fc.2
                    &&& final(self).n_estimate_fp_spec() == fc.3
                    &&& final(self).target_delay_micros_spec() == fc.4
                } else {
                    &&& final(self).cwnd_fp_spec() == old(self).cwnd_fp_spec()
                    &&& final(self).f_estimate_fp_spec() == old(self).f_estimate_fp_spec()
                    &&& final(self).n_estimate_fp_spec() == old(self).n_estimate_fp_spec()
                    &&& final(self).target_delay_micros_spec() == old(
                        self,
                    ).target_delay_micros_spec()
                }
            }),
            final(self).records_view() == old(self).records_view(),
            final(self).phase_spec() == old(self).phase_spec(),
            final(self).action_spec() == old(self).action_spec(),
            final(self).cruise_cwnd_fp_spec() == old(self).cruise_cwnd_fp_spec(),
            final(self).prev_cwnd_fp_spec() == old(self).prev_cwnd_fp_spec(),
            final(self).min_rtt_micros() == old(self).min_rtt_micros(),
            final(self).srtt_micros() == old(self).srtt_micros(),
            final(self).metric_rows_len() == old(self).metric_rows_len(),
            final(self).has_ack_metric() == old(self).has_ack_metric(),
            final(self).has_rtt_sample() == old(self).has_rtt_sample(),
            final(self).registry_spec() is Some == old(self).registry_spec() is Some,
    {
        let found = self.find_last_probe();
        match found {
            None => {},
            Some(idx) => {
                proof {
                    lemma_last_probe_in_range(self.records@);
                }
                let probe = self.records[idx];
                let sums = self.f_sums();
                let f = rate_fp_of(sums.0, sums.1);
                let snd = probe.snd_rate_fp();
                let ack = probe.ack_rate_fp();
                let n_fp: u64 = if ack >= snd {
                    FP_SCALE
                } else {
                    let c = c_estimate_fp(snd, ack, f);
                    div_fp_sat(c, f)
                };
                let td = mul_div_sat(n_fp, self.min_rtt.micros, FP_SCALE);
                let target: u64 = if avg_us == 0 {
                    u64::MAX
                } else {
                    mul_div_sat(self.cwnd_fp, td, avg_us)
                };
                let mean: u64 = (((self.cwnd_fp as u128) + (target as u128)) / 2) as u64;
                let lo = mul_div_sat(self.cwnd_fp, 8, 9);
                let hi = mul_div_sat(self.cwnd_fp, 9, 8);
                let clamped = if mean < lo {
                    lo
                } else if mean > hi {
                    hi
                } else {
                    mean
                };
                self.cwnd_fp = clamped;
                self.f_estimate_fp = f;
                self.n_estimate_fp = n_fp;
                self.target_delay_micros = td;
            },
        }
    }

    /// One phase step after the newest record's send half closed:
    /// advance the phase, pick the action (slow start until some record
    /// has completed its ack half), apply the action's window rule, and
    /// re-apply the window floor.
    fn update_window(&mut self, avg_us: u64)
        requires
            old(self).wf(),
        ensures
            final(self).wf(),
            final(self).records_view() == old(self).records_view(),
            final(self).min_rtt_micros() == old(self).min_rtt_micros(),
            final(self).srtt_micros() == old(self).srtt_micros(),
            final(self).prev_cwnd_fp_spec() == old(self).cwnd_fp_spec(),
            final(self).phase_spec() == ((old(self).phase_spec() + 1) as int % (
            CYCLE_STEPS as int)),
            final(self).action_spec() == if spec_has_ack_complete(old(self).records_view()) {
                spec_action_from_phase(final(self).phase_spec())
            } else {
                NDDFSMAction::SlowStart
            },
            ({
                let pair = spec_action_cwnd(
                    final(self).action_spec(),
                    old(self).records_view(),
                    old(self).cwnd_fp_spec(),
                    old(self).cruise_cwnd_fp_spec(),
                    old(self).min_rtt_micros(),
                    avg_us,
                );
                &&& final(self).cwnd_fp_spec() == spec_floor_cwnd(pair.0)
                &&& final(self).cruise_cwnd_fp_spec() == pair.1
            }),
            final(self).cwnd_fp_spec() >= MIN_CWND_FP,
            ({
                let fc = spec_first_cruise(
                    old(self).records_view(),
                    old(self).cwnd_fp_spec(),
                    old(self).min_rtt_micros(),
                    avg_us,
                );
                if final(self).action_spec() == NDDFSMAction::FirstCruise && fc.0 {
                    &&& final(self).f_estimate_fp_spec() == fc.2
                    &&& final(self).n_estimate_fp_spec() == fc.3
                    &&& final(self).target_delay_micros_spec() == fc.4
                } else {
                    &&& final(self).f_estimate_fp_spec() == old(self).f_estimate_fp_spec()
                    &&& final(self).n_estimate_fp_spec() == old(self).n_estimate_fp_spec()
                    &&& final(self).target_delay_micros_spec() == old(
                        self,
                    ).target_delay_micros_spec()
                }
            }),
            final(self).metric_rows_len() == old(self).metric_rows_len(),
            final(self).has_ack_metric() == old(self).has_ack_metric(),
            final(self).has_rtt_sample() == old(self).has_rtt_sample(),
            final(self).registry_spec() is Some == old(self).registry_spec() is Some,
    {
        self.prev_cwnd_fp = self.cwnd_fp;
        self.phase = (self.phase + 1) % CYCLE_STEPS;
        let mut act = get_action_from_phase(self.phase);
        if !self.has_complete_record() {
            act = NDDFSMAction::SlowStart;
        }
        self.action = act;
        match act {
            NDDFSMAction::SlowStart => {
                let doubled = (2 as u128) * (avg_us as u128) <= (3 as u128) * (
                self.min_rtt.micros as u128);
                if doubled {
                    self.cwnd_fp = mul_div_sat(self.cwnd_fp, 2, 1);
                    proof {
                        assert(((old(self).cwnd_fp as int) * 2) / 1 == 2 * old(self).cwnd_fp);
                    }
                } else {
                    self.cwnd_fp = self.cwnd_fp / 2;
                }
                self.cruise_cwnd_fp = self.cwnd_fp;
            },
            NDDFSMAction::FirstCruise => {
                self.first_cruise_update(avg_us);
                self.cruise_cwnd_fp = self.cwnd_fp;
            },
            NDDFSMAction::Cruise => {},
            NDDFSMAction::FirstProbe => {
                self.cwnd_fp = mul_div_sat(self.cwnd_fp, 5, 4);
            },
            NDDFSMAction::Probe => {},
            NDDFSMAction::Drain => {
                self.cwnd_fp = self.cruise_cwnd_fp;
            },
        }
        if self.cwnd_fp < MIN_CWND_FP {
            self.cwnd_fp = MIN_CWND_FP;
        }
    }

    /// Process a cumulative ack: absorb the RTT sample, stretch the RTT
    /// history window to `max(10 s, 30·srtt)`, track the running minimum
    /// RTT, update the record history, and, when the ack completed the
    /// newest record's send half, advance the phase and update the
    /// window (logging one metric row if a metric is attached). Inferred
    /// losses are accepted but drive no reaction.
    pub fn on_ack(&mut self, now: Time, cum_ack: SeqNum, ack_uid: PktId, rtt: Time, num_lost: u64)
        requires
            old(self).wf(),
        ensures
            final(self).wf(),
            spec_on_ack_post(*old(self), *final(self), now, cum_ack, rtt),
    {
        self.base_rtt.new_rtt_sample(rtt, now);
        let srtt = self.base_rtt.get_srtt();
        let stretched = mul_div_sat(srtt.micros, 30, 1);
        let dur = if stretched >= 10 * MICROS_PER_SEC {
            stretched
        } else {
            10 * MICROS_PER_SEC
        };
        self.base_rtt.change_hist_period(Time::from_micros(dur), now);
        self.min_rtt = self.min_rtt.min_time(rtt);
        let avg_us = srtt.sub_sat(self.min_rtt).micros();
        let inst_us = rtt.sub_sat(self.min_rtt).micros();
        let upd = self.close_records(cum_ack, now);
        self.trim_records();
        if upd {
            self.update_window(avg_us);
            if self.ack_metric.is_some() {
                let m = NDDAckMetric {
                    now,
                    cwnd_fp: self.cwnd_fp,
                    phase: self.phase,
                    action: self.action,
                    f_estimate_fp: self.f_estimate_fp,
                    n_estimate_fp: self.n_estimate_fp,
                    target_delay_micros: self.target_delay_micros,
                    srtt,
                    min_rtt: self.min_rtt,
                    average_delay_micros: avg_us,
                    inst_delay_micros: inst_us,
                };
                proof {
                    assert(self.has_ack_metric());
                }
                self.log_metric_row(m.to_row());
            }
        }
    }

    /// Whether an ack metric is attached.
    pub closed spec fn has_ack_metric(self) -> bool {
        self.ack_metric is Some && self.metric_registry is Some
    }

    /// Append one row to the attached ack metric.
    fn log_metric_row(&mut self, row: Vec<String>)
        requires
            old(self).wf(),
            old(self).has_ack_metric(),
        ensures
            final(self).wf(),
            final(self).metric_rows_len() == old(self).metric_rows_len() + 1,
            final(self).has_ack_metric(),
            final(self).records_view() == old(self).records_view(),
            final(self).cwnd_fp_spec() == old(self).cwnd_fp_spec(),
            final(self).cruise_cwnd_fp_spec() == old(self).cruise_cwnd_fp_spec(),
            final(self).prev_cwnd_fp_spec() == old(self).prev_cwnd_fp_spec(),
            final(self).phase_spec() == old(self).phase_spec(),
            final(self).action_spec() == old(self).action_spec(),
            final(self).min_rtt_micros() == old(self).min_rtt_micros(),
            final(self).srtt_micros() == old(self).srtt_micros(),
            final(self).f_estimate_fp_spec() == old(self).f_estimate_fp_spec(),
            final(self).n_estimate_fp_spec() == old(self).n_estimate_fp_spec(),
            final(self).target_delay_micros_spec() == old(self).target_delay_micros_spec(),
            final(self).has_rtt_sample() == old(self).has_rtt_sample(),
            final(self).registry_spec() is Some == old(self).registry_spec() is Some,
    {
        let h = match self.ack_metric {
            Some(h) => h,
            None => 0,
        };
        let mut taken: Option<MetricRegistry> = None;
        std::mem::swap(&mut taken, &mut self.metric_registry);
        match taken {
            Some(mut reg) => {
                reg.log(h, row);
                self.metric_registry = Some(reg);
            },
            None => {},
        }
    }

    /// Attach metrics (when a configuration is given) and randomise the
    /// starting phase to decorrelate concurrent flows.
    pub fn init(&mut self, name: &str, metrics_config: Option<MetricConfig>)
        requires
            old(self).wf(),
        ensures
            final(self).wf(),
            spec_init_post(*old(self), *final(self), metrics_config, name@),
            final(self).phase_spec() < CYCLE_STEPS,
    {
        match metrics_config {
            Some(cfg) => {
                let mut reg = MetricRegistry::new(cfg);
                let mut metric_name = name.to_owned();
                metric_name.append("ack");
                let h = reg.register_csv_metric(metric_name.as_str(), NDDAckMetric::get_columns());
                self.metric_registry = Some(reg);
                self.ack_metric = h;
            },
            None => {},
        }
        let r: u32 = rand::random();
        self.phase = r % CYCLE_STEPS;
    }

    /// Attach metrics like `init`, but with a caller-chosen starting
    /// phase, for reproducible runs.
    pub fn init_with_phase(&mut self, name: &str, metrics_config: Option<MetricConfig>, phase: u32)
        requires
            old(self).wf(),
        ensures
            final(self).wf(),
            spec_init_post(*old(self), *final(self), metrics_config, name@),
            final(self).phase_spec() == (phase as int) % (CYCLE_STEPS as int),
    {
        match metrics_config {
            Some(cfg) => {
                let mut reg = MetricRegistry::new(cfg);
                let mut metric_name = name.to_owned();
                metric_name.append("ack");
                let h = reg.register_csv_metric(metric_name.as_str(), NDDAckMetric::get_columns());
                self.metric_registry = Some(reg);
                self.ack_metric = h;
            },
            None => {},
        }
        self.phase = phase % CYCLE_STEPS;
    }

    pub closed spec fn registry_spec(self) -> Option<MetricRegistry> {
        self.metric_registry
    }

    /// The metric files collected over the run, ready to be written.
    pub fn finish(&self) -> (files: Vec<(String, Vec<u8>)>)
        ensures
            match self.registry_spec() {
                Some(reg) => files@.map_values(|f: (String, Vec<u8>)| f.0@)
                    == crate::metrics::spec_export_names(reg.metrics_view()) && files@.map_values(
                    |f: (String, Vec<u8>)| f.1@,
                ) == crate::metrics::spec_export_bodies(reg.metrics_view()),
                None => files@.len() == 0,
            },
    {
        match &self.metric_registry {
            Some(reg) => reg.finish(),
            None => Vec::new(),
        }
    }
}

/// One row of the NDD ack metric: the state after a window update.
pub struct NDDAckMetric {
    pub now: Time,
    pub cwnd_fp: u64,
    pub phase: u32,
    pub action: NDDFSMAction,
    pub f_estimate_fp: u64,
    pub n_estimate_fp: u64,
    pub target_delay_micros: u64,
    pub srtt: Time,
    pub min_rtt: Time,
    pub average_delay_micros: u64,
    pub inst_delay_micros: u64,
}

impl NDDAckMetric {
    /// The row as CSV cells, in the stable column order.
    pub fn to_row(&self) -> (r: Vec<String>)
        ensures
            r@.len() == 11,
            r@[0]@ == crate::metrics::spec_u64_decimal(self.now.micros as nat),
            r@[1]@ == crate::metrics::spec_u64_decimal(self.cwnd_fp as nat),
            r@[2]@ == crate::metrics::spec_u64_decimal(self.phase as nat),
            r@[3]@ == spec_action_label(self.action),
            r@[4]@ == crate::metrics::spec_u64_decimal(self.f_estimate_fp as nat),
            r@[5]@ == crate::metrics::spec_u64_decimal(self.n_estimate_fp as nat),
            r@[6]@ == crate::metrics::spec_u64_decimal(self.target_delay_micros as nat),
            r@[7]@ == crate::metrics::spec_u64_decimal(self.srtt.micros as nat),
            r@[8]@ == crate::metrics::spec_u64_decimal(self.min_rtt.micros as nat),
            r@[9]@ == crate::metrics::spec_u64_decimal(self.average_delay_micros as nat),
            r@[10]@ == crate::metrics::spec_u64_decimal(self.inst_delay_micros as nat),
    {
        let mut r: Vec<String> = Vec::new();
        r.push(u64_to_string(self.now.micros));
        r.push(u64_to_string(self.cwnd_fp));
        r.push(u64_to_string(self.phase as u64));
        r.push(self.action.label().to_owned());
        r.push(u64_to_string(self.f_estimate_fp));
        r.push(u64_to_string(self.n_estimate_fp));
        r.push(u64_to_string(self.target_delay_micros));
        r.push(u64_to_string(self.srtt.micros));
        r.push(u64_to_string(self.min_rtt.micros));
        r.push(u64_to_string(self.average_delay_micros));
        r.push(u64_to_string(self.inst_delay_micros));
        r
    }

    /// The stable column order of the NDD ack metric.
    pub fn get_columns() -> (r: Vec<String>)
        ensures
            r@.len() == 11,
            r@[0]@ == "now"@,
            r@[1]@ == "cwnd"@,
            r@[2]@ == "phase"@,
            r@[3]@ == "action"@,
            r@[4]@ == "f_estimate"@,
            r@[5]@ == "n_estimate"@,
            r@[6]@ == "target_delay"@,
            r@[7]@ == "srtt"@,
            r@[8]@ == "min_rtt"@,
            r@[9]@ == "average_delay"@,
            r@[10]@ == "inst_delay"@,
    {
        let mut r: Vec<String> = Vec::new();
        r.push("now".to_owned());
        r.push("cwnd".to_owned());
        r.push("phase".to_owned());
        r.push("action".to_owned());
        r.push("f_estimate".to_owned());
        r.push("n_estimate".to_owned());
        r.push("target_delay".to_owned());
        r.push("srtt".to_owned());
        r.push("min_rtt".to_owned());
        r.push("average_delay".to_owned());
        r.push("inst_delay".to_owned());
        r
    }
}

/// Everything `on_send` leaves alone: all state but the record history.
pub open spec fn spec_same_but_records(pre: NDDSlow, post: NDDSlow) -> bool {
    &&& post.cwnd_fp_spec() == pre.cwnd_fp_spec()
    &&& post.prev_cwnd_fp_spec() == pre.prev_cwnd_fp_spec()
    &&& post.cruise_cwnd_fp_spec() == pre.cruise_cwnd_fp_spec()
    &&& post.phase_spec() == pre.phase_spec()
    &&& post.action_spec() == pre.action_spec()
    &&& post.min_rtt_micros() == pre.min_rtt_micros()
    &&& post.srtt_micros() == pre.srtt_micros()
    &&& post.has_rtt_sample() == pre.has_rtt_sample()
    &&& post.f_estimate_fp_spec() == pre.f_estimate_fp_spec()
    &&& post.n_estimate_fp_spec() == pre.n_estimate_fp_spec()
    &&& post.target_delay_micros_spec() == pre.target_delay_micros_spec()
    &&& post.registry_spec() == pre.registry_spec()
    &&& post.has_ack_metric() == pre.has_ack_metric()
    &&& post.metric_rows_len() == pre.metric_rows_len()
}

/// The state after `on_send(now, seq_num, _)`: open a record (carrying
/// the current window, phase and action) if none is open, else extend
/// the open record's send tail; nothing else changes.
pub open spec fn spec_on_send_post(pre: NDDSlow, post: NDDSlow, now: Time, seq_num: u64) -> bool {
    &&& ({
        let rs = pre.records_view();
        if rs.len() == 0 || rs.last().snd_complete {
            post.records_view() == rs.push(
                Record {
                    snd_beg_seq: seq_num,
                    snd_beg_time: now,
                    snd_end_seq: None,
                    snd_end_time: None,
                    ack_beg_seq: None,
                    ack_beg_time: None,
                    ack_end_seq: None,
                    ack_end_time: None,
                    snd_complete: false,
                    ack_complete: false,
                    cwnd_fp: pre.cwnd_fp_spec(),
                    phase: pre.phase_spec(),
                    action: pre.action_spec(),
                },
            )
        } else {
            post.records_view() == rs.update(
                rs.len() - 1,
                Record { snd_end_seq: Some(seq_num), snd_end_time: Some(now), ..rs.last() },
            )
        }
    })
    &&& post.records_view().len() > 0
    &&& spec_same_but_records(pre, post)
}

/// The state after `on_timeout`: the window collapses to two packets
/// (the floor is reapplied only at the next window update); nothing
/// else changes.
pub open spec fn spec_on_timeout_post(pre: NDDSlow, post: NDDSlow) -> bool {
    &&& post.cwnd_fp_spec() == 2 * FP_SCALE
    &&& post.records_view() == pre.records_view()
    &&& post.prev_cwnd_fp_spec() == pre.prev_cwnd_fp_spec()
    &&& post.cruise_cwnd_fp_spec() == pre.cruise_cwnd_fp_spec()
    &&& post.phase_spec() == pre.phase_spec()
    &&& post.action_spec() == pre.action_spec()
    &&& post.min_rtt_micros() == pre.min_rtt_micros()
    &&& post.srtt_micros() == pre.srtt_micros()
    &&& post.has_rtt_sample() == pre.has_rtt_sample()
    &&& post.f_estimate_fp_spec() == pre.f_estimate_fp_spec()
    &&& post.n_estimate_fp_spec() == pre.n_estimate_fp_spec()
    &&& post.target_delay_micros_spec() == pre.target_delay_micros_spec()
    &&& post.registry_spec() == pre.registry_spec()
    &&& post.has_ack_metric() == pre.has_ack_metric()
    &&& post.metric_rows_len() == pre.metric_rows_len()
}

/// The state after `on_ack(now, cum_ack, _, rtt, _)`: the RTT sample is
/// absorbed, the running minimum updated, the record history closed and
/// trimmed, and, when the newest record's send half just closed, the
/// phase advances and the window moves by that step's action (with one
/// metric row logged when a metric is attached).
pub open spec fn spec_on_ack_post(
    pre: NDDSlow,
    post: NDDSlow,
    now: Time,
    cum_ack: u64,
    rtt: Time,
) -> bool {
    &&& post.srtt_micros() == crate::rtt_window::spec_ewma(
        pre.srtt_micros(),
        rtt.micros,
        !pre.has_rtt_sample(),
    )
    &&& post.has_rtt_sample()
    &&& post.min_rtt_micros() == if pre.min_rtt_micros() <= rtt.micros {
        pre.min_rtt_micros() as int
    } else {
        rtt.micros as int
    }
    &&& post.has_ack_metric() == pre.has_ack_metric()
    &&& post.registry_spec() is Some == pre.registry_spec() is Some
    &&& ({
        let closed = spec_close_records(pre.records_view(), cum_ack, now);
        let trimmed = spec_trim(closed.0);
        let upd = closed.1;
        let avg = post.spec_avg_delay();
        if upd {
            let phase2 = ((pre.phase_spec() + 1) as int % (CYCLE_STEPS as int));
            let act = if spec_has_ack_complete(trimmed) {
                spec_action_from_phase(phase2 as u32)
            } else {
                NDDFSMAction::SlowStart
            };
            let pair = spec_action_cwnd(
                act,
                trimmed,
                pre.cwnd_fp_spec(),
                pre.cruise_cwnd_fp_spec(),
                post.min_rtt_micros() as u64,
                avg as u64,
            );
            let fc = spec_first_cruise(
                trimmed,
                pre.cwnd_fp_spec(),
                post.min_rtt_micros() as u64,
                avg as u64,
            );
            &&& post.records_view() == trimmed
            &&& post.phase_spec() == phase2
            &&& post.action_spec() == act
            &&& post.prev_cwnd_fp_spec() == pre.cwnd_fp_spec()
            &&& post.cwnd_fp_spec() == spec_floor_cwnd(pair.0)
            &&& post.cruise_cwnd_fp_spec() == pair.1
            &&& post.cwnd_fp_spec() >= MIN_CWND_FP
            &&& (if act == NDDFSMAction::FirstCruise && fc.0 {
                &&& post.f_estimate_fp_spec() == fc.2
                &&& post.n_estimate_fp_spec() == fc.3
                &&& post.target_delay_micros_spec() == fc.4
            } else {
                &&& post.f_estimate_fp_spec() == pre.f_estimate_fp_spec()
                &&& post.n_estimate_fp_spec() == pre.n_estimate_fp_spec()
                &&& post.target_delay_micros_spec() == pre.target_delay_micros_spec()
            })
            &&& post.metric_rows_len() == pre.metric_rows_len() + (
            if pre.has_ack_metric() {
                1int
            } else {
                0int
            })
        } else {
            &&& post.records_view() == trimmed
            &&& post.phase_spec() == pre.phase_spec()
            &&& post.action_spec() == pre.action_spec()
            &&& post.cwnd_fp_spec() == pre.cwnd_fp_spec()
            &&& post.cruise_cwnd_fp_spec() == pre.cruise_cwnd_fp_spec()
            &&& post.prev_cwnd_fp_spec() == pre.prev_cwnd_fp_spec()
            &&& post.f_estimate_fp_spec() == pre.f_estimate_fp_spec()
            &&& post.n_estimate_fp_spec() == pre.n_estimate_fp_spec()
            &&& post.target_delay_micros_spec() == pre.target_delay_micros_spec()
            &&& post.metric_rows_len() == pre.metric_rows_len()
        }
    })
}

/// The state after `init`: metrics are attached exactly when a
/// configuration was given (a fresh registry holding one empty, enabled
/// metric named after the flow); everything but the phase is otherwise
/// unchanged.
pub open spec fn spec_init_post(
    pre: NDDSlow,
    post: NDDSlow,
    cfg: Option<MetricConfig>,
    name: Seq<char>,
) -> bool {
    &&& post.records_view() == pre.records_view()
    &&& post.cwnd_fp_spec() == pre.cwnd_fp_spec()
    &&& post.prev_cwnd_fp_spec() == pre.prev_cwnd_fp_spec()
    &&& post.cruise_cwnd_fp_spec() == pre.cruise_cwnd_fp_spec()
    &&& post.action_spec() == pre.action_spec()
    &&& post.min_rtt_micros() == pre.min_rtt_micros()
    &&& post.srtt_micros() == pre.srtt_micros()
    &&& post.has_rtt_sample() == pre.has_rtt_sample()
    &&& post.f_estimate_fp_spec() == pre.f_estimate_fp_spec()
    &&& post.n_estimate_fp_spec() == pre.n_estimate_fp_spec()
    &&& post.target_delay_micros_spec() == pre.target_delay_micros_spec()
    &&& match cfg {
        Some(c) => {
            &&& post.has_ack_metric()
            &&& post.metric_rows_len() == 0
            &&& post.registry_spec() matches Some(reg) && reg.data_dir_spec() == c.data_dir@
                && reg.metrics_view().len() == 1 && reg.metrics_view()[0].name_spec() == name
                + "ack"@ && reg.metrics_view()[0].enabled_spec()
                && reg.metrics_view()[0].rows_spec().len() == 0
        },
        None => {
            &&& post.registry_spec() == pre.registry_spec()
            &&& post.has_ack_metric() == pre.has_ack_metric()
            &&& post.metric_rows_len() == pre.metric_rows_len()
        },
    }
}

impl Default for NDDSlow {
    /// A fresh flow: window at the floor, phase zero in slow start, a
    /// ten-second RTT history and a ten-second placeholder minimum RTT.
    fn default() -> (r: NDDSlow)
        ensures
            r.wf(),
            r.records_view().len() == 0,
            r.cwnd_fp_spec() == MIN_CWND_FP,
            r.cruise_cwnd_fp_spec() == MIN_CWND_FP,
            r.prev_cwnd_fp_spec() == MIN_CWND_FP,
            r.phase_spec() == 0,
            r.action_spec() == NDDFSMAction::SlowStart,
            r.min_rtt_micros() == 10 * MICROS_PER_SEC,
            r.srtt_micros() == 0,
            !r.has_rtt_sample(),
            r.f_estimate_fp_spec() == 0,
            r.n_estimate_fp_spec() == FP_SCALE,
            r.target_delay_micros_spec() == 10 * MICROS_PER_SEC,
            !r.has_ack_metric(),
    {
        NDDSlow {
            base_rtt: RTTWindow::new(Time::from_secs(10)),
            min_rtt: Time::from_micros(10 * MICROS_PER_SEC),
            records: Vec::new(),
            cwnd_fp: MIN_CWND_FP,
            prev_cwnd_fp: MIN_CWND_FP,
            cruise_cwnd_fp: MIN_CWND_FP,
            phase: 0,
            action: NDDFSMAction::SlowStart,
            f_estimate_fp: 0,
            n_estimate_fp: FP_SCALE,
            target_delay_micros: 10 * MICROS_PER_SEC,
            metric_registry: None,
            ack_metric: None,
        }
    }
}

// Relies on rand::random: nothing is promised of the drawn value.
pub assume_specification<T>[ rand::random::<T> ]() -> (r: T)
    where
        rand::distributions::Standard: rand::distributions::Distribution<T>,
;

} // verus!
