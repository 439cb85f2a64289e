//! The NDD congestion-control algorithm, rate-matched variant: instead
//! of an explicit phase machine it reacts to every record whose ack half
//! closes, keeping running bounds on the bottleneck fair share in two
//! short filters and multiplicatively steering the window so the
//! queueing delay lands between `n_min · minRTT` and `n_max · minRTT`.
//! Arithmetic is unsigned fixed point (scale [`FP_SCALE`]), saturating
//! where real arithmetic would produce infinities.

use vstd::prelude::*;
use circular_buffer::HeapCircularBuffer;
use crate::base::{PktId, SeqNum};
use crate::fixedpoint::{
    add_sat, c_estimate_fp, div_fp_sat, mul_div_sat, rate_fp_of, round_fp, spec_c_estimate_fp,
    spec_div_fp_sat, spec_mul_div_sat, spec_rate_fp, spec_round_fp, FP_SCALE,
};
use crate::metrics::{Metric, MetricConfig, MetricRegistry};
use crate::rtt_window::RTTWindow;
use crate::time::{Time, MICROS_PER_SEC};

verus! {

/// How many fair-share estimates each filter keeps.
pub const F_FILTER_LEN: usize = 1;

/// The window floor in fixed point.
pub const MIN_CWND_FP: u64 = 8 * FP_SCALE;

/// The least spacing between transmissions.
pub const MIN_INTERSEND_MICROS: u64 = 1000;

/// How many records the history keeps.
pub const KEPT_RECORDS: usize = 3;

#[verifier::external_type_specification]
#[verifier::external_body]
#[verifier::reject_recursive_types(T)]
pub struct ExHeapCircularBuffer<T>(HeapCircularBuffer<T>);

/// What a filter buffer holds, front to back.
pub uninterp spec fn cb_contents(b: HeapCircularBuffer<u64>) -> Seq<u64>;

/// The fixed capacity a filter buffer was made with.
pub uninterp spec fn cb_capacity(b: HeapCircularBuffer<u64>) -> nat;

/// Relies on HeapCircularBuffer::with_capacity: an empty buffer holding
/// at most `cap` items.
#[verifier::external_body]
fn cb_with_capacity(cap: usize) -> (b: HeapCircularBuffer<u64>)
    ensures
        cb_contents(b) == Seq::<u64>::empty(),
        cb_capacity(b) == cap,
{
    HeapCircularBuffer::with_capacity(cap)
}

/// Relies on CircularBuffer::push_back (through deref): appends at the
/// back, displacing the front item when full; a zero-capacity buffer
/// swallows the item.
#[verifier::external_body]
fn cb_push_back(b: &mut HeapCircularBuffer<u64>, x: u64)
    ensures
        cb_capacity(*final(b)) == cb_capacity(*old(b)),
        cb_contents(*final(b)) == if cb_contents(*old(b)).len() < cb_capacity(*old(b)) {
            cb_contents(*old(b)).push(x)
        } else if cb_capacity(*old(b)) > 0 {
            cb_contents(*old(b)).drop_first().push(x)
        } else {
            cb_contents(*old(b))
        },
{
    b.push_back(x);
}

/// Relies on CircularBuffer::iter (through deref): the items front to
/// back.
#[verifier::external_body]
fn cb_to_vec(b: &HeapCircularBuffer<u64>) -> (v: Vec<u64>)
    ensures
        v@ == cb_contents(*b),
{
    b.iter().copied().collect()
}

/// The largest element, or `0` of an empty sequence.
pub open spec fn spec_seq_max(s: Seq<u64>) -> int
    decreases s.len(),
{
    if s.len() == 0 {
        0
    } else {
        let rest = spec_seq_max(s.drop_last());
        if s.last() >= rest {
            s.last() as int
        } else {
            rest
        }
    }
}

/// The smallest element, or `u64::MAX` of an empty sequence.
pub open spec fn spec_seq_min(s: Seq<u64>) -> int
    decreases s.len(),
{
    if s.len() == 0 {
        u64::MAX as int
    } else {
        let rest = spec_seq_min(s.drop_last());
        if s.last() <= rest {
            s.last() as int
        } else {
            rest
        }
    }
}

#[verifier::loop_isolation(false)]
fn seq_max(v: &Vec<u64>) -> (r: u64)
    ensures
        r == spec_seq_max(v@),
{
    let n = v.len();
    let mut best: u64 = 0;
    let mut i: usize = 0;
    proof {
        assert(v@.take(0int) =~= Seq::<u64>::empty());
    }
    while i < n
        invariant
            0 <= i <= n,
            best == spec_seq_max(v@.take(i as int)),
        decreases n - i,
    {
        proof {
            assert(v@.take(i + 1).drop_last() =~= v@.take(i as int));
            assert(v@.take(i + 1).last() == v@[i as int]);
        }
        let x = v[i];
        if x >= best {
            best = x;
        }
        i = i + 1;
    }
    proof {
        assert(v@.take(n as int) =~= v@);
    }
    best
}

#[verifier::loop_isolation(false)]
fn seq_min(v: &Vec<u64>) -> (r: u64)
    ensures
        r == spec_seq_min(v@),
{
    let n = v.len();
    let mut best: u64 = u64::MAX;
    let mut i: usize = 0;
    proof {
        assert(v@.take(0int) =~= Seq::<u64>::empty());
    }
    while i < n
        invariant
            0 <= i <= n,
            best == spec_seq_min(v@.take(i as int)),
        decreases n - i,
    {
        proof {
            assert(v@.take(i + 1).drop_last() =~= v@.take(i as int));
            assert(v@.take(i + 1).last() == v@[i as int]);
        }
        let x = v[i];
        if x <= best {
            best = x;
        }
        i = i + 1;
    }
    proof {
        assert(v@.take(n as int) =~= v@);
    }
    best
}

/// One send epoch of the rate-matched variant; the flow-count bounds are
/// filled in when the record's ack half closes against a faster send.
#[derive(Clone, Copy, Debug, PartialEq, Eq, Structural)]
pub struct Record {
    pub snd_beg_seq: SeqNum,
    pub snd_beg_time: Time,
    pub snd_end_seq: Option<SeqNum>,
    pub snd_end_time: Option<Time>,
    pub ack_beg_seq: Option<SeqNum>,
    pub ack_beg_time: Option<Time>,
    pub ack_end_seq: Option<SeqNum>,
    pub ack_end_time: Option<Time>,
    pub snd_complete: bool,
    pub ack_complete: bool,
    pub n_min_fp: Option<u64>,
    pub n_max_fp: Option<u64>,
}

pub open spec fn spec_snd_rate_fp(r: Record) -> int {
    let pkts = match r.snd_end_seq {
        Some(e) => if e >= r.snd_beg_seq {
            e - r.snd_beg_seq
        } else {
            0int
        },
        None => 0,
    };
    let dur = match r.snd_end_time {
        Some(t) => if t.micros >= r.snd_beg_time.micros {
            t.micros - r.snd_beg_time.micros
        } else {
            0int
        },
        None => 0,
    };
    spec_rate_fp(pkts, dur)
}

pub open spec fn spec_ack_rate_fp(r: Record) -> int {
    let pkts = match (r.ack_beg_seq, r.ack_end_seq) {
        (Some(b), Some(e)) => if e >= b {
            e - b
        } else {
            0int
        },
        _ => 0,
    };
    let dur = match (r.ack_beg_time, r.ack_end_time) {
        (Some(b), Some(e)) => if e.micros >= b.micros {
            e.micros - b.micros
        } else {
            0int
        },
        _ => 0,
    };
    spec_rate_fp(pkts, dur)
}

impl Record {
    pub fn snd_rate_fp(&self) -> (r: u64)
        ensures
            r == spec_snd_rate_fp(*self),
    {
        let pkts: u64 = match self.snd_end_seq {
            Some(e) => if e >= self.snd_beg_seq {
                e - self.snd_beg_seq
            } else {
                0
            },
            None => 0,
        };
        let dur: u64 = match self.snd_end_time {
            Some(t) => if t.micros >= self.snd_beg_time.micros {
                t.micros - self.snd_beg_time.micros
            } else {
                0
            },
            None => 0,
        };
        rate_fp_of(pkts as u128, dur as u128)
    }

    pub fn ack_rate_fp(&self) -> (r: u64)
        ensures
            r == spec_ack_rate_fp(*self),
    {
        let pkts: u64 = match (self.ack_beg_seq, self.ack_end_seq) {
            (Some(b), Some(e)) => if e >= b {
                e - b
            } else {
                0
            },
            _ => 0,
        };
        let dur: u64 = match (self.ack_beg_time, self.ack_end_time) {
            (Some(b), Some(e)) => if e.micros >= b.micros {
                e.micros - b.micros
            } else {
                0
            },
            _ => 0,
        };
        rate_fp_of(pkts as u128, dur as u128)
    }

    /// The capacity estimate from this record's rates; only meaningful
    /// when the send rate exceeds the ack rate.
    pub fn c_estimate(&self, f_estimate_fp: u64) -> (r: u64)
        requires
            spec_snd_rate_fp(*self) > spec_ack_rate_fp(*self),
        ensures
            r == spec_c_estimate_fp(
                spec_snd_rate_fp(*self) as u64,
                spec_ack_rate_fp(*self) as u64,
                f_estimate_fp,
            ),
    {
        let snd = self.snd_rate_fp();
        let ack = self.ack_rate_fp();
        c_estimate_fp(snd, ack, f_estimate_fp)
    }
}

/// The flow-count bounds derived from a closed record: the fair-share
/// window `[f_min, f_max]` gives capacity bounds, whose ratios to the
/// fair share bound the flow count; the lower bound is floored at one
/// flow. Yields `(n_min, n_max)`.
pub open spec fn spec_n_bounds(snd: u64, ack: u64, f_min0: u64, f_max0: u64) -> (int, int) {
    let f_min: u64 = if f_max0 < f_min0 {
        f_max0
    } else {
        f_min0
    };
    let c_max = spec_c_estimate_fp(snd, ack, f_min);
    let c_min = spec_c_estimate_fp(snd, ack, f_max0);
    let n1 = spec_div_fp_sat(c_max as u64, f_min);
    let n2 = spec_div_fp_sat(c_min as u64, f_max0);
    let lo = if n1 <= n2 {
        n1
    } else {
        n2
    };
    let hi = if n1 >= n2 {
        n1
    } else {
        n2
    };
    let n_min = if lo >= FP_SCALE {
        lo
    } else {
        FP_SCALE as int
    };
    (n_min, hi)
}

/// The multiplicative window move: shrink by 3/4 above the target band
/// (or inside it after a growth step), grow by 5/4 below it (or inside
/// it after a shrink step).
pub open spec fn spec_cwnd_move(
    cwnd: u64,
    last_increase: bool,
    delay_us: u64,
    td_min_us: u64,
    td_max_us: u64,
) -> int {
    if td_min_us <= delay_us && delay_us <= td_max_us {
        if last_increase {
            spec_mul_div_sat(cwnd, 3, 4)
        } else {
            spec_mul_div_sat(cwnd, 5, 4)
        }
    } else if delay_us < td_min_us {
        spec_mul_div_sat(cwnd, 5, 4)
    } else {
        spec_mul_div_sat(cwnd, 3, 4)
    }
}

pub open spec fn spec_floor_cwnd(c: int) -> int {
    if c >= MIN_CWND_FP {
        c
    } else {
        MIN_CWND_FP as int
    }
}


/// One row of the rate-matched variant's metric: the belief bounds and
/// delays at an update. Absent bounds render as `nan`.
pub struct NDDState {
    pub f_min_fp: u64,
    pub f_max_fp: u64,
    pub c_min_fp: Option<u64>,
    pub c_max_fp: Option<u64>,
    pub n_min_fp: Option<u64>,
    pub n_max_fp: Option<u64>,
    pub target_delay_min_micros: Option<u64>,
    pub target_delay_max_micros: Option<u64>,
    pub delay_micros: u64,
    pub min_rtt_micros: u64,
}

impl NDDState {
    /// The row as CSV cells, in the stable column order.
    pub fn to_row(&self) -> (r: Vec<String>)
        ensures
            r@.len() == 10,
            r@[0]@ == crate::metrics::spec_u64_decimal(self.f_min_fp as nat),
            r@[1]@ == crate::metrics::spec_u64_decimal(self.f_max_fp as nat),
            r@[8]@ == crate::metrics::spec_u64_decimal(self.delay_micros as nat),
            r@[9]@ == crate::metrics::spec_u64_decimal(self.min_rtt_micros as nat),
    {
        let mut r: Vec<String> = Vec::new();
        r.push(crate::metrics::u64_to_string(self.f_min_fp));
        r.push(crate::metrics::u64_to_string(self.f_max_fp));
        r.push(crate::metrics::option_to_string(self.c_min_fp));
        r.push(crate::metrics::option_to_string(self.c_max_fp));
        r.push(crate::metrics::option_to_string(self.n_min_fp));
        r.push(crate::metrics::option_to_string(self.n_max_fp));
        r.push(crate::metrics::option_to_string(self.target_delay_min_micros));
        r.push(crate::metrics::option_to_string(self.target_delay_max_micros));
        r.push(crate::metrics::u64_to_string(self.delay_micros));
        r.push(crate::metrics::u64_to_string(self.min_rtt_micros));
        r
    }

    /// The stable column order of the rate-matched variant's metric.
    pub fn get_columns() -> (r: Vec<String>)
        ensures
            r@.len() == 10,
            r@[0]@ == "f_min"@,
            r@[1]@ == "f_max"@,
            r@[2]@ == "c_min"@,
            r@[3]@ == "c_max"@,
            r@[4]@ == "n_min"@,
            r@[5]@ == "n_max"@,
            r@[6]@ == "target_delay_min"@,
            r@[7]@ == "target_delay_max"@,
            r@[8]@ == "delay"@,
            r@[9]@ == "min_rtt"@,
    {
        let mut r: Vec<String> = Vec::new();
        r.push("f_min".to_owned());
        r.push("f_max".to_owned());
        r.push("c_min".to_owned());
        r.push("c_max".to_owned());
        r.push("n_min".to_owned());
        r.push("n_max".to_owned());
        r.push("target_delay_min".to_owned());
        r.push("target_delay_max".to_owned());
        r.push("delay".to_owned());
        r.push("min_rtt".to_owned());
        r
    }
}

/// A push into a fair-share filter of capacity [`F_FILTER_LEN`]: appends,
/// displacing the front when full.
pub open spec fn spec_filter_push(s: Seq<u64>, x: u64) -> Seq<u64> {
    if s.len() < F_FILTER_LEN {
        s.push(x)
    } else if F_FILTER_LEN > 0 {
        s.drop_first().push(x)
    } else {
        s
    }
}

/// Keep at most the newest [`KEPT_RECORDS`] records.
pub open spec fn spec_trim2(rs: Seq<Record>) -> Seq<Record> {
    if rs.len() > KEPT_RECORDS {
        rs.skip(rs.len() - KEPT_RECORDS as int)
    } else {
        rs
    }
}

pub open spec fn spec_has_complete2(rs: Seq<Record>) -> bool {
    exists|i: int| 0 <= i < rs.len() && (#[trigger] rs[i]).ack_complete
}

/// The whole reaction to a cumulative ack, after the RTT bookkeeping:
/// close records, update the fair-share filters and move the window on
/// a full close, trim the history, and probe additively while no record
/// has ever closed. Yields the new
/// `(records, cwnd, prev_cwnd, last_increase, f_mins, f_maxs)`.
/// Whether this cumulative ack closes the second-newest record's ack
/// half (which is when the estimates update and one metric row is
/// logged).
pub open spec fn spec_closed_slr(rs: Seq<Record>, cum_ack: u64) -> bool {
    &&& rs.len() >= 2
    &&& cum_ack >= 1
    &&& cum_ack - 1 < rs.last().snd_beg_seq
    &&& match rs[rs.len() - 2].snd_end_seq {
        Some(e) => cum_ack == e && !rs[rs.len() - 2].ack_complete,
        None => false,
    }
}

pub open spec fn spec_close_step2(
    rs: Seq<Record>,
    cum_ack: u64,
    now: Time,
    delay_us: u64,
    min_rtt_us: u64,
    cwnd: u64,
    prevc: u64,
    lastinc: bool,
    fmins: Seq<u64>,
    fmaxs: Seq<u64>,
) -> (Seq<Record>, int, int, bool, Seq<u64>, Seq<u64>) {
    let base = (rs, cwnd as int, prevc as int, lastinc, fmins, fmaxs);
    if rs.len() == 0 {
        base
    } else {
        let last = rs.last();
        if cum_ack >= 1 && cum_ack - 1 == last.snd_beg_seq && !last.snd_complete {
            let rs2 = rs.update(
                rs.len() - 1,
                Record {
                    snd_complete: true,
                    ack_beg_seq: Some(cum_ack),
                    ack_beg_time: Some(now),
                    ..last
                },
            );
            (rs2, cwnd as int, prevc as int, lastinc, fmins, fmaxs)
        } else if cum_ack >= 1 && cum_ack - 1 < last.snd_beg_seq && rs.len() >= 2 {
            let slr = rs[rs.len() - 2];
            match slr.snd_end_seq {
                Some(e) => if cum_ack == e && !slr.ack_complete {
                    let rec1 = Record {
                        ack_complete: true,
                        ack_end_seq: Some(cum_ack),
                        ack_end_time: Some(now),
                        ..slr
                    };
                    let ack = spec_ack_rate_fp(rec1);
                    let snd = spec_snd_rate_fp(rec1);
                    let fmins2 = if ack >= snd {
                        spec_filter_push(fmins, ack as u64)
                    } else {
                        fmins
                    };
                    let fmaxs2 = if ack >= snd {
                        fmaxs
                    } else {
                        spec_filter_push(fmaxs, ack as u64)
                    };
                    let f_min0 = spec_seq_max(fmins2);
                    let f_max0 = spec_seq_min(fmaxs2);
                    let moved = if snd <= ack {
                        (spec_mul_div_sat(cwnd, 5, 4), rec1)
                    } else {
                        let nb = spec_n_bounds(snd as u64, ack as u64, f_min0 as u64, f_max0 as u64);
                        let rec2 = Record {
                            n_min_fp: Some(nb.0 as u64),
                            n_max_fp: Some(nb.1 as u64),
                            ..rec1
                        };
                        let n_max_adj = if nb.0 == nb.1 {
                            if nb.1 + FP_SCALE / 2 <= u64::MAX {
                                nb.1 + FP_SCALE / 2
                            } else {
                                u64::MAX as int
                            }
                        } else {
                            nb.1
                        };
                        let td_min = spec_mul_div_sat(nb.0 as u64, min_rtt_us, FP_SCALE);
                        let td_max = spec_mul_div_sat(n_max_adj as u64, min_rtt_us, FP_SCALE);
                        (
                            spec_cwnd_move(cwnd, lastinc, delay_us, td_min as u64, td_max as u64),
                            rec2,
                        )
                    };
                    let cwndf = spec_floor_cwnd(moved.0);
                    let rs2 = rs.update(rs.len() - 2, moved.1);
                    (rs2, cwndf, cwndf, prevc <= cwndf, fmins2, fmaxs2)
                } else {
                    base
                },
                None => base,
            }
        } else {
            base
        }
    }
}

/// The whole reaction to a cumulative ack, after the RTT bookkeeping:
/// close records, update the fair-share filters and move the window on
/// a full close, trim the history, and probe additively while no record
/// has ever closed. Yields the new
/// `(records, cwnd, prev_cwnd, last_increase, f_mins, f_maxs)`.
pub open spec fn spec_ack_update2(
    rs: Seq<Record>,
    cum_ack: u64,
    now: Time,
    delay_us: u64,
    min_rtt_us: u64,
    cwnd: u64,
    prevc: u64,
    lastinc: bool,
    fmins: Seq<u64>,
    fmaxs: Seq<u64>,
) -> (Seq<Record>, int, int, bool, Seq<u64>, Seq<u64>) {
    let stepped = spec_close_step2(
        rs,
        cum_ack,
        now,
        delay_us,
        min_rtt_us,
        cwnd,
        prevc,
        lastinc,
        fmins,
        fmaxs,
    );
    let trimmed = spec_trim2(stepped.0);
    if !spec_has_complete2(trimmed) {
        let grown = if 2 * delay_us <= 3 * min_rtt_us {
            if stepped.1 + FP_SCALE / 2 <= u64::MAX {
                stepped.1 + FP_SCALE / 2
            } else {
                u64::MAX as int
            }
        } else {
            if stepped.1 - FP_SCALE / 2 >= 0 {
                stepped.1 - FP_SCALE / 2
            } else {
                0
            }
        };
        let cwndf = spec_floor_cwnd(grown);
        (trimmed, cwndf, cwndf, stepped.2 <= cwndf, stepped.4, stepped.5)
    } else {
        (trimmed, stepped.1, stepped.2, stepped.3, stepped.4, stepped.5)
    }
}

pub struct NDD {
    base_rtt: RTTWindow,
    min_rtt: Time,
    f_min_estimates: HeapCircularBuffer<u64>,
    f_max_estimates: HeapCircularBuffer<u64>,
    records: Vec<Record>,
    cwnd_fp: u64,
    prev_cwnd_fp: u64,
    last_increase: bool,
    metric_registry: Option<MetricRegistry>,
    ack_metric: Option<usize>,
}

impl NDD {
    pub closed spec fn records_view(self) -> Seq<Record> {
        self.records@
    }

    pub closed spec fn cwnd_fp_spec(self) -> u64 {
        self.cwnd_fp
    }

    pub closed spec fn prev_cwnd_fp_spec(self) -> u64 {
        self.prev_cwnd_fp
    }

    pub closed spec fn last_increase_spec(self) -> bool {
        self.last_increase
    }

    pub closed spec fn min_rtt_micros(self) -> u64 {
        self.min_rtt.micros
    }

    pub closed spec fn srtt_micros(self) -> u64 {
        self.base_rtt.srtt_micros()
    }

    pub closed spec fn has_rtt_sample(self) -> bool {
        self.base_rtt.has_seen_sample()
    }

    pub closed spec fn f_min_view(self) -> Seq<u64> {
        cb_contents(self.f_min_estimates)
    }

    pub closed spec fn f_max_view(self) -> Seq<u64> {
        cb_contents(self.f_max_estimates)
    }

    pub closed spec fn metrics_wf(self) -> bool {
        match self.ack_metric {
            Some(h) => self.metric_registry matches Some(reg) && h < reg.metrics_view().len(),
            None => true,
        }
    }

    /// Whether an ack metric is attached.
    pub closed spec fn has_ack_metric(self) -> bool {
        self.ack_metric is Some && self.metric_registry is Some
    }

    /// How many rows the ack metric has collected (zero without one).
    pub closed spec fn metric_rows_len(self) -> int {
        match (self.metric_registry, self.ack_metric) {
            (Some(reg), Some(h)) => if h < reg.metrics_view().len() {
                reg.metrics_view()[h as int].rows_spec().len() as int
            } else {
                0
            },
            _ => 0,
        }
    }

    pub closed spec fn wf(self) -> bool {
        &&& cb_capacity(self.f_min_estimates) == F_FILTER_LEN
        &&& cb_capacity(self.f_max_estimates) == F_FILTER_LEN
        &&& self.metrics_wf()
    }

    /// Append one row to the attached ack metric.
    fn log_metric_row(&mut self, row: Vec<String>)
        requires
            old(self).wf(),
            old(self).has_ack_metric(),
        ensures
            final(self).wf(),
            final(self).records_view() == old(self).records_view(),
            final(self).cwnd_fp_spec() == old(self).cwnd_fp_spec(),
            final(self).prev_cwnd_fp_spec() == old(self).prev_cwnd_fp_spec(),
            final(self).last_increase_spec() == old(self).last_increase_spec(),
            final(self).min_rtt_micros() == old(self).min_rtt_micros(),
            final(self).srtt_micros() == old(self).srtt_micros(),
            final(self).has_rtt_sample() == old(self).has_rtt_sample(),
            final(self).f_min_view() == old(self).f_min_view(),
            final(self).f_max_view() == old(self).f_max_view(),
            final(self).has_ack_metric(),
            final(self).registry_spec() is Some,
            final(self).metric_rows_len() == old(self).metric_rows_len() + 1,
    {
        let h = match self.ack_metric {
            Some(h) => h,
            None => 0,
        };
        let mut taken: Option<MetricRegistry> = None;
        std::mem::swap(&mut taken, &mut self.metric_registry);
        match taken {
            Some(mut reg) => {
                reg.log(h, row);
                self.metric_registry = Some(reg);
            },
            None => {},
        }
    }

    pub fn get_cwnd(&self) -> (r: u64)
        ensures
            r == spec_round_fp(self.cwnd_fp_spec()),
    {
        round_fp(self.cwnd_fp)
    }

    pub fn get_intersend_time(&self) -> (r: Time)
        ensures
            r.micros == if crate::ndd_slow::spec_intersend_micros(
                self.srtt_micros(),
                self.cwnd_fp_spec(),
            ) >= MIN_INTERSEND_MICROS {
                crate::ndd_slow::spec_intersend_micros(self.srtt_micros(), self.cwnd_fp_spec())
            } else {
                MIN_INTERSEND_MICROS as int
            },
            r.micros >= MIN_INTERSEND_MICROS,
    {
        let paced = if self.cwnd_fp == 0 {
            u64::MAX
        } else {
            mul_div_sat(self.base_rtt.get_srtt().micros(), 2 * FP_SCALE, self.cwnd_fp)
        };
        if paced >= MIN_INTERSEND_MICROS {
            Time { micros: paced }
        } else {
            Time { micros: MIN_INTERSEND_MICROS }
        }
    }

    pub fn on_timeout(&mut self)
        requires
            old(self).wf(),
        ensures
            final(self).wf(),
            spec_on_timeout_post(*old(self), *final(self)),
    {
        self.cwnd_fp = 2 * FP_SCALE;
    }

    /// Bookkeeping after each transmission, as in the phased variant.
    pub fn on_send(&mut self, now: Time, seq_num: SeqNum, uid: PktId)
        requires
            old(self).wf(),
        ensures
            final(self).wf(),
            spec_on_send_post(*old(self), *final(self), now, seq_num),
    {
        let n = self.records.len();
        let open_new = if n == 0 {
            true
        } else {
            self.records[n - 1].snd_complete
        };
        if open_new {
            self.records.push(
                Record {
                    snd_beg_seq: seq_num,
                    snd_beg_time: now,
                    snd_end_seq: None,
                    snd_end_time: None,
                    ack_beg_seq: None,
                    ack_beg_time: None,
                    ack_end_seq: None,
                    ack_end_time: None,
                    snd_complete: false,
                    ack_complete: false,
                    n_min_fp: None,
                    n_max_fp: None,
                },
            );
        } else {
            let mut rec = self.records[n - 1];
            rec.snd_end_seq = Some(seq_num);
            rec.snd_end_time = Some(now);
            self.records.set(n - 1, rec);
        }
    }

    /// Record bookkeeping and the window move for one cumulative ack:
    /// exactly [`spec_close_step2`] over the pre-call state.
    #[verifier::rlimit(100)]
    #[verifier::spinoff_prover]
    fn close_step(&mut self, cum_ack: u64, now: Time, delay_us: u64)
        requires
            old(self).wf(),
        ensures
            final(self).wf(),
            ({
                let st = spec_close_step2(
                    old(self).records_view(),
                    cum_ack,
                    now,
                    delay_us,
                    old(self).min_rtt_micros(),
                    old(self).cwnd_fp_spec(),
                    old(self).prev_cwnd_fp_spec(),
                    old(self).last_increase_spec(),
                    old(self).f_min_view(),
                    old(self).f_max_view(),
                );
                &&& final(self).records_view() == st.0
                &&& final(self).cwnd_fp_spec() == st.1
                &&& final(self).prev_cwnd_fp_spec() == st.2
                &&& final(self).last_increase_spec() == st.3
                &&& final(self).f_min_view() == st.4
                &&& final(self).f_max_view() == st.5
            }),
            final(self).min_rtt_micros() == old(self).min_rtt_micros(),
            final(self).srtt_micros() == old(self).srtt_micros(),
            final(self).has_rtt_sample() == old(self).has_rtt_sample(),
            final(self).has_ack_metric() == old(self).has_ack_metric(),
            final(self).registry_spec() is Some == old(self).registry_spec() is Some,
            final(self).metric_rows_len() == old(self).metric_rows_len() + (
            if spec_closed_slr(old(self).records_view(), cum_ack) && old(self).has_ack_metric() {
                1int
            } else {
                0int
            }),
    {
        let n = self.records.len();
        if n > 0 {
            let last = self.records[n - 1];
            if cum_ack >= 1 && cum_ack - 1 == last.snd_beg_seq && !last.snd_complete {
                let mut rec = last;
                rec.snd_complete = true;
                rec.ack_beg_seq = Some(cum_ack);
                rec.ack_beg_time = Some(now);
                self.records.set(n - 1, rec);
            } else if cum_ack >= 1 && cum_ack - 1 < last.snd_beg_seq && n >= 2 {
                let slr = self.records[n - 2];
                let close = match slr.snd_end_seq {
                    Some(e) => cum_ack == e && !slr.ack_complete,
                    None => false,
                };
                if close {
                    let mut rec = slr;
                    rec.ack_complete = true;
                    rec.ack_end_seq = Some(cum_ack);
                    rec.ack_end_time = Some(now);
                    let ack_rate = rec.ack_rate_fp();
                    let snd_rate = rec.snd_rate_fp();
                    if ack_rate >= snd_rate {
                        cb_push_back(&mut self.f_min_estimates, ack_rate);
                    } else {
                        cb_push_back(&mut self.f_max_estimates, ack_rate);
                    }
                    let mins = cb_to_vec(&self.f_min_estimates);
                    let maxs = cb_to_vec(&self.f_max_estimates);
                    let f_min0 = seq_max(&mins);
                    let f_max0 = seq_min(&maxs);
                    let mut row_state: Option<NDDState> = None;
                    if snd_rate <= ack_rate {
                        self.cwnd_fp = mul_div_sat(self.cwnd_fp, 5, 4);
                        row_state = Some(
                            NDDState {
                                f_min_fp: f_min0,
                                f_max_fp: f_max0,
                                c_min_fp: None,
                                c_max_fp: None,
                                n_min_fp: None,
                                n_max_fp: None,
                                target_delay_min_micros: None,
                                target_delay_max_micros: None,
                                delay_micros: delay_us,
                                min_rtt_micros: self.min_rtt.micros,
                            },
                        );
                    } else {
                        let f_min = if f_max0 < f_min0 {
                            f_max0
                        } else {
                            f_min0
                        };
                        let c_max = rec.c_estimate(f_min);
                        let c_min = rec.c_estimate(f_max0);
                        let n1 = div_fp_sat(c_max, f_min);
                        let n2 = div_fp_sat(c_min, f_max0);
                        let lo = if n1 <= n2 {
                            n1
                        } else {
                            n2
                        };
                        let hi = if n1 >= n2 {
                            n1
                        } else {
                            n2
                        };
                        let n_min = if lo >= FP_SCALE {
                            lo
                        } else {
                            FP_SCALE
                        };
                        let mut n_max = hi;
                        rec.n_min_fp = Some(n_min);
                        rec.n_max_fp = Some(n_max);
                        if n_min == n_max {
                            n_max = add_sat(n_max, FP_SCALE / 2);
                        }
                        let td_min = mul_div_sat(n_min, self.min_rtt.micros, FP_SCALE);
                        let td_max = mul_div_sat(n_max, self.min_rtt.micros, FP_SCALE);
                        if td_min <= delay_us && delay_us <= td_max {
                            if self.last_increase {
                                self.cwnd_fp = mul_div_sat(self.cwnd_fp, 3, 4);
                            } else {
                                self.cwnd_fp = mul_div_sat(self.cwnd_fp, 5, 4);
                            }
                        } else if delay_us < td_min {
                            self.cwnd_fp = mul_div_sat(self.cwnd_fp, 5, 4);
                        } else {
                            self.cwnd_fp = mul_div_sat(self.cwnd_fp, 3, 4);
                        }
                        row_state = Some(
                            NDDState {
                                f_min_fp: f_min,
                                f_max_fp: f_max0,
                                c_min_fp: Some(c_min),
                                c_max_fp: Some(c_max),
                                n_min_fp: Some(n_min),
                                n_max_fp: Some(n_max),
                                target_delay_min_micros: Some(td_min),
                                target_delay_max_micros: Some(td_max),
                                delay_micros: delay_us,
                                min_rtt_micros: self.min_rtt.micros,
                            },
                        );
                    }
                    match row_state {
                        Some(st) => {
                            if self.ack_metric.is_some() {
                                proof {
                                    assert(self.has_ack_metric());
                                }
                                self.log_metric_row(st.to_row());
                            }
                        },
                        None => {},
                    }
                    self.records.set(n - 2, rec);
                    if self.cwnd_fp < MIN_CWND_FP {
                        self.cwnd_fp = MIN_CWND_FP;
                    }
                    self.last_increase = self.prev_cwnd_fp <= self.cwnd_fp;
                    self.prev_cwnd_fp = self.cwnd_fp;
                }
            }
        }
    }

    /// Process a cumulative ack: absorb the RTT sample, close records,
    /// and when a record's ack half closes against a faster send, update
    /// the fair-share filters and move the window toward the target
    /// delay band; with no closed record yet, additively probe on delay.
    /// After every move the window floor is re-applied.
    #[verifier::rlimit(60)]
    #[verifier::spinoff_prover]
    pub fn on_ack(&mut self, now: Time, cum_ack: SeqNum, ack_uid: PktId, rtt: Time, num_lost: u64)
        requires
            old(self).wf(),
        ensures
            final(self).wf(),
            spec_on_ack_post(*old(self), *final(self), now, cum_ack, rtt),
    {
        self.base_rtt.new_rtt_sample(rtt, now);
        let srtt = self.base_rtt.get_srtt();
        let stretched = mul_div_sat(srtt.micros, 30, 1);
        let dur = if stretched >= 10 * MICROS_PER_SEC {
            stretched
        } else {
            10 * MICROS_PER_SEC
        };
        self.base_rtt.change_hist_period(Time::from_micros(dur), now);
        self.min_rtt = self.min_rtt.min_time(rtt);
        let delay_us = rtt.sub_sat(self.min_rtt).micros();

        self.ack_update(cum_ack, now, delay_us);
    }

    /// Everything an ack does after the RTT bookkeeping: exactly
    /// [`spec_ack_update2`] of the pre-call state, logging one metric
    /// row when a record's ack half closed and a metric is attached.
    #[verifier::rlimit(100)]
    #[verifier::spinoff_prover]
    fn ack_update(&mut self, cum_ack: u64, now: Time, delay_us: u64)
        requires
            old(self).wf(),
        ensures
            final(self).wf(),
            final(self).min_rtt_micros() == old(self).min_rtt_micros(),
            final(self).srtt_micros() == old(self).srtt_micros(),
            final(self).has_rtt_sample() == old(self).has_rtt_sample(),
            final(self).has_ack_metric() == old(self).has_ack_metric(),
            final(self).registry_spec() is Some == old(self).registry_spec() is Some,
            final(self).metric_rows_len() == old(self).metric_rows_len() + (
            if spec_closed_slr(old(self).records_view(), cum_ack) && old(self).has_ack_metric() {
                1int
            } else {
                0int
            }),
            (final(self).cwnd_fp_spec() == old(self).cwnd_fp_spec() || final(self).cwnd_fp_spec()
                >= MIN_CWND_FP),
            ({
                let r = spec_ack_update2(
                    old(self).records_view(),
                    cum_ack,
                    now,
                    delay_us,
                    old(self).min_rtt_micros(),
                    old(self).cwnd_fp_spec(),
                    old(self).prev_cwnd_fp_spec(),
                    old(self).last_increase_spec(),
                    old(self).f_min_view(),
                    old(self).f_max_view(),
                );
                &&& final(self).records_view() == r.0
                &&& final(self).cwnd_fp_spec() == r.1
                &&& final(self).prev_cwnd_fp_spec() == r.2
                &&& final(self).last_increase_spec() == r.3
                &&& final(self).f_min_view() == r.4
                &&& final(self).f_max_view() == r.5
            }),
    {
        self.close_step(cum_ack, now, delay_us);
        self.trim_records();
        if !self.has_complete_record() {
            self.slow_probe(delay_us);
        }
    }

    /// Additive delay probing until the first record closes: half a
    /// packet up on low delay, half a packet down otherwise, floored.
    fn slow_probe(&mut self, delay_us: u64)
        requires
            old(self).wf(),
        ensures
            final(self).wf(),
            final(self).records_view() == old(self).records_view(),
            final(self).min_rtt_micros() == old(self).min_rtt_micros(),
            final(self).srtt_micros() == old(self).srtt_micros(),
            final(self).has_rtt_sample() == old(self).has_rtt_sample(),
            final(self).f_min_view() == old(self).f_min_view(),
            final(self).f_max_view() == old(self).f_max_view(),
            final(self).registry_spec() == old(self).registry_spec(),
            final(self).has_ack_metric() == old(self).has_ack_metric(),
            final(self).metric_rows_len() == old(self).metric_rows_len(),
            ({
                let grown = if 2 * delay_us <= 3 * old(self).min_rtt_micros() {
                    if old(self).cwnd_fp_spec() + FP_SCALE / 2 <= u64::MAX {
                        old(self).cwnd_fp_spec() + FP_SCALE / 2
                    } else {
                        u64::MAX as int
                    }
                } else {
                    if old(self).cwnd_fp_spec() - FP_SCALE / 2 >= 0 {
                        old(self).cwnd_fp_spec() - FP_SCALE / 2
                    } else {
                        0int
                    }
                };
                let cwndf = spec_floor_cwnd(grown);
                &&& final(self).cwnd_fp_spec() == cwndf
                &&& final(self).prev_cwnd_fp_spec() == cwndf
                &&& final(self).last_increase_spec() == (old(self).prev_cwnd_fp_spec() <= cwndf)
            }),
    {
        if 2 * (delay_us as u128) <= 3 * (self.min_rtt.micros as u128) {
            self.cwnd_fp = add_sat(self.cwnd_fp, FP_SCALE / 2);
        } else {
            self.cwnd_fp = self.cwnd_fp.saturating_sub(FP_SCALE / 2);
        }
        if self.cwnd_fp < MIN_CWND_FP {
            self.cwnd_fp = MIN_CWND_FP;
        }
        self.last_increase = self.prev_cwnd_fp <= self.cwnd_fp;
        self.prev_cwnd_fp = self.cwnd_fp;
    }

    /// Drop the oldest records beyond the short history.
    #[verifier::loop_isolation(false)]
    fn trim_records(&mut self)
        requires
            old(self).wf(),
        ensures
            final(self).wf(),
            final(self).records_view() == if old(self).records_view().len() > KEPT_RECORDS {
                old(self).records_view().skip(old(self).records_view().len() - KEPT_RECORDS as int)
            } else {
                old(self).records_view()
            },
            final(self).cwnd_fp_spec() == old(self).cwnd_fp_spec(),
            final(self).prev_cwnd_fp_spec() == old(self).prev_cwnd_fp_spec(),
            final(self).last_increase_spec() == old(self).last_increase_spec(),
            final(self).min_rtt_micros() == old(self).min_rtt_micros(),
            final(self).srtt_micros() == old(self).srtt_micros(),
            final(self).f_min_view() == old(self).f_min_view(),
            final(self).f_max_view() == old(self).f_max_view(),
            final(self).has_rtt_sample() == old(self).has_rtt_sample(),
            final(self).has_ack_metric() == old(self).has_ack_metric(),
            final(self).registry_spec() is Some == old(self).registry_spec() is Some,
            final(self).metric_rows_len() == old(self).metric_rows_len(),
    {
        let ghost orig = old(self).records@;
        proof {
            assert(self.records@ =~= orig.skip(orig.len() - self.records@.len()));
        }
        while self.records.len() > KEPT_RECORDS
            invariant
                self.records@.len() <= orig.len(),
                self.records@ == orig.skip(orig.len() - self.records@.len()),
                orig.len() > KEPT_RECORDS ==> self.records@.len() >= KEPT_RECORDS,
                orig.len() <= KEPT_RECORDS ==> self.records@ == orig,
                self.cwnd_fp == old(self).cwnd_fp,
                self.prev_cwnd_fp == old(self).prev_cwnd_fp,
                self.last_increase == old(self).last_increase,
                self.min_rtt == old(self).min_rtt,
                self.base_rtt == old(self).base_rtt,
                self.f_min_estimates == old(self).f_min_estimates,
                self.f_max_estimates == old(self).f_max_estimates,
                self.metric_registry == old(self).metric_registry,
                self.ack_metric == old(self).ack_metric,
            decreases self.records@.len(),
        {
            let ghost before = self.records@;
            self.records.remove(0);
            proof {
                let k = orig.len() - before.len();
                assert(self.records@ =~= before.subrange(1, before.len() as int));
                assert(orig.skip(k).subrange(1, orig.skip(k).len() as int) =~= orig.skip(k + 1));
            }
        }
    }

    /// Whether any record has completed its ack half.
    #[verifier::loop_isolation(false)]
    fn has_complete_record(&self) -> (r: bool)
        ensures
            r == exists|i: int|
                0 <= i < self.records_view().len() && (#[trigger] self.records_view()[i]).ack_complete,
    {
        let n = self.records.len();
        let mut i: usize = 0;
        while i < n
            invariant
                0 <= i <= n,
                forall|j: int| 0 <= j < i ==> !(#[trigger] self.records@[j]).ack_complete,
            decreases n - i,
        {
            if self.records[i].ack_complete {
                return true;
            }
            i = i + 1;
        }
        false
    }

    /// The most recent flow-count bounds among closed records, if any.
    pub fn last_n_bounds(&self) -> (r: Option<(u64, u64)>)
        ensures
            match r {
                Some(b) => exists|i: int|
                    0 <= i < self.records_view().len() && (#[trigger] self.records_view()[i]).n_min_fp
                        == Some(b.0) && self.records_view()[i].n_max_fp == Some(b.1),
                None => true,
            },
    {
        let n = self.records.len();
        let mut i: usize = n;
        while i > 0
            invariant
                0 <= i <= n,
                n == self.records@.len(),
            decreases i,
        {
            let rec = self.records[i - 1];
            match (rec.n_min_fp, rec.n_max_fp) {
                (Some(lo), Some(hi)) => {
                    proof {
                        assert(0 <= i - 1 < self.records_view().len());
                        assert((self.records_view()[i - 1]).n_min_fp == Some(lo)
                            && (self.records_view()[i - 1]).n_max_fp == Some(hi));
                    }
                    return Some((lo, hi));
                },
                _ => {},
            }
            i = i - 1;
        }
        None
    }

    /// Attach metrics when a configuration is given.
    pub fn init(&mut self, name: &str, metrics_config: Option<MetricConfig>)
        requires
            old(self).wf(),
        ensures
            final(self).wf(),
            spec_init_post(*old(self), *final(self), metrics_config, name@),
    {
        match metrics_config {
            Some(cfg) => {
                let mut reg = MetricRegistry::new(cfg);
                let mut metric_name = name.to_owned();
                metric_name.append("ack");
                let h = reg.register_csv_metric(metric_name.as_str(), NDDState::get_columns());
                self.metric_registry = Some(reg);
                self.ack_metric = h;
            },
            None => {},
        }
    }

    /// The metric files collected over the run, ready to be written.
    pub fn finish(&self) -> (files: Vec<(String, Vec<u8>)>)
        ensures
            match self.registry_spec() {
                Some(reg) => files@.map_values(|f: (String, Vec<u8>)| f.0@)
                    == crate::metrics::spec_export_names(reg.metrics_view()) && files@.map_values(
                    |f: (String, Vec<u8>)| f.1@,
                ) == crate::metrics::spec_export_bodies(reg.metrics_view()),
                None => files@.len() == 0,
            },
    {
        match &self.metric_registry {
            Some(reg) => reg.finish(),
            None => Vec::new(),
        }
    }

    pub closed spec fn registry_spec(self) -> Option<MetricRegistry> {
        self.metric_registry
    }
}

/// Everything `on_send` leaves alone: all state but the record history.
pub open spec fn spec_same_but_records(pre: NDD, post: NDD) -> bool {
    &&& post.cwnd_fp_spec() == pre.cwnd_fp_spec()
    &&& post.prev_cwnd_fp_spec() == pre.prev_cwnd_fp_spec()
    &&& post.last_increase_spec() == pre.last_increase_spec()
    &&& post.min_rtt_micros() == pre.min_rtt_micros()
    &&& post.srtt_micros() == pre.srtt_micros()
    &&& post.has_rtt_sample() == pre.has_rtt_sample()
    &&& post.f_min_view() == pre.f_min_view()
    &&& post.f_max_view() == pre.f_max_view()
    &&& post.registry_spec() == pre.registry_spec()
    &&& post.has_ack_metric() == pre.has_ack_metric()
    &&& post.metric_rows_len() == pre.metric_rows_len()
}

/// The state after `on_send(now, seq_num, _)`: open a record if none is
/// open, else extend the open record's send tail; nothing else changes.
pub open spec fn spec_on_send_post(pre: NDD, post: NDD, now: Time, seq_num: u64) -> bool {
    &&& ({
        let rs = pre.records_view();
        if rs.len() == 0 || rs.last().snd_complete {
            post.records_view() == rs.push(
                Record {
                    snd_beg_seq: seq_num,
                    snd_beg_time: now,
                    snd_end_seq: None,
                    snd_end_time: None,
                    ack_beg_seq: None,
                    ack_beg_time: None,
                    ack_end_seq: None,
                    ack_end_time: None,
                    snd_complete: false,
                    ack_complete: false,
                    n_min_fp: None,
                    n_max_fp: None,
                },
            )
        } else {
            post.records_view() == rs.update(
                rs.len() - 1,
                Record { snd_end_seq: Some(seq_num), snd_end_time: Some(now), ..rs.last() },
            )
        }
    })
    &&& post.records_view().len() > 0
    &&& spec_same_but_records(pre, post)
}

/// The state after `on_timeout`: the window collapses to two packets
/// (the floor is reapplied only at the next window update); nothing
/// else changes.
pub open spec fn spec_on_timeout_post(pre: NDD, post: NDD) -> bool {
    &&& post.cwnd_fp_spec() == 2 * FP_SCALE
    &&& post.records_view() == pre.records_view()
    &&& post.prev_cwnd_fp_spec() == pre.prev_cwnd_fp_spec()
    &&& post.last_increase_spec() == pre.last_increase_spec()
    &&& post.min_rtt_micros() == pre.min_rtt_micros()
    &&& post.srtt_micros() == pre.srtt_micros()
    &&& post.has_rtt_sample() == pre.has_rtt_sample()
    &&& post.f_min_view() == pre.f_min_view()
    &&& post.f_max_view() == pre.f_max_view()
    &&& post.registry_spec() == pre.registry_spec()
    &&& post.has_ack_metric() == pre.has_ack_metric()
    &&& post.metric_rows_len() == pre.metric_rows_len()
}

/// The state after `on_ack(now, cum_ack, _, rtt, _)`: the RTT sample is
/// absorbed, the running minimum updated, and the rest is exactly
/// [`spec_ack_update2`] of the pre-call state (one metric row logged
/// when a record's ack half closed and a metric is attached).
pub open spec fn spec_on_ack_post(pre: NDD, post: NDD, now: Time, cum_ack: u64, rtt: Time) -> bool {
    &&& post.srtt_micros() == crate::rtt_window::spec_ewma(
        pre.srtt_micros(),
        rtt.micros,
        !pre.has_rtt_sample(),
    )
    &&& post.has_rtt_sample()
    &&& post.min_rtt_micros() == if pre.min_rtt_micros() <= rtt.micros {
        pre.min_rtt_micros() as int
    } else {
        rtt.micros as int
    }
    &&& (post.cwnd_fp_spec() == pre.cwnd_fp_spec() || post.cwnd_fp_spec() >= MIN_CWND_FP)
    &&& post.has_ack_metric() == pre.has_ack_metric()
    &&& post.registry_spec() is Some == pre.registry_spec() is Some
    &&& post.metric_rows_len() == pre.metric_rows_len() + (
    if spec_closed_slr(pre.records_view(), cum_ack) && pre.has_ack_metric() {
        1int
    } else {
        0int
    })
    &&& ({
        let min2 = if pre.min_rtt_micros() <= rtt.micros {
            pre.min_rtt_micros()
        } else {
            rtt.micros
        };
        let delay = if rtt.micros >= min2 {
            (rtt.micros - min2) as u64
        } else {
            0u64
        };
        let r = spec_ack_update2(
            pre.records_view(),
            cum_ack,
            now,
            delay,
            min2,
            pre.cwnd_fp_spec(),
            pre.prev_cwnd_fp_spec(),
            pre.last_increase_spec(),
            pre.f_min_view(),
            pre.f_max_view(),
        );
        &&& post.records_view() == r.0
        &&& post.cwnd_fp_spec() == r.1
        &&& post.prev_cwnd_fp_spec() == r.2
        &&& post.last_increase_spec() == r.3
        &&& post.f_min_view() == r.4
        &&& post.f_max_view() == r.5
    })
}

/// The state after `init`: metrics are attached exactly when a
/// configuration was given (a fresh registry holding one empty, enabled
/// metric named after the flow); nothing else changes.
pub open spec fn spec_init_post(
    pre: NDD,
    post: NDD,
    cfg: Option<MetricConfig>,
    name: Seq<char>,
) -> bool {
    &&& post.records_view() == pre.records_view()
    &&& post.cwnd_fp_spec() == pre.cwnd_fp_spec()
    &&& post.prev_cwnd_fp_spec() == pre.prev_cwnd_fp_spec()
    &&& post.last_increase_spec() == pre.last_increase_spec()
    &&& post.min_rtt_micros() == pre.min_rtt_micros()
    &&& post.srtt_micros() == pre.srtt_micros()
    &&& post.has_rtt_sample() == pre.has_rtt_sample()
    &&& post.f_min_view() == pre.f_min_view()
    &&& post.f_max_view() == pre.f_max_view()
    &&& match cfg {
        Some(c) => {
            &&& post.has_ack_metric()
            &&& post.metric_rows_len() == 0
            &&& post.registry_spec() matches Some(reg) && reg.data_dir_spec() == c.data_dir@
                && reg.metrics_view().len() == 1 && reg.metrics_view()[0].name_spec() == name
                + "ack"@ && reg.metrics_view()[0].enabled_spec()
                && reg.metrics_view()[0].rows_spec().len() == 0
        },
        None => {
            &&& post.registry_spec() == pre.registry_spec()
            &&& post.has_ack_metric() == pre.has_ack_metric()
            &&& post.metric_rows_len() == pre.metric_rows_len()
        },
    }
}

impl Default for NDD {
    /// A fresh flow: the fair-share window primed at one packet per
    /// second from below and a billion from above, window at the floor.
    fn default() -> (r: NDD)
        ensures
            r.wf(),
            r.records_view().len() == 0,
            r.cwnd_fp_spec() == MIN_CWND_FP,
            r.prev_cwnd_fp_spec() == MIN_CWND_FP,
            !r.last_increase_spec(),
            !r.has_ack_metric(),
            r.min_rtt_micros() == 10 * MICROS_PER_SEC,
            r.srtt_micros() == 0,
            r.f_min_view() =~= seq![FP_SCALE as u64],
            r.f_max_view() =~= seq![(1_000_000_000 * FP_SCALE) as u64],
    {
        let mut f_min_estimates = cb_with_capacity(F_FILTER_LEN);
        cb_push_back(&mut f_min_estimates, FP_SCALE);
        let mut f_max_estimates = cb_with_capacity(F_FILTER_LEN);
        cb_push_back(&mut f_max_estimates, 1_000_000_000 * FP_SCALE);
        NDD {
            base_rtt: RTTWindow::new(Time::from_secs(10)),
            min_rtt: Time::from_micros(10 * MICROS_PER_SEC),
            f_min_estimates,
            f_max_estimates,
            records: Vec::new(),
            cwnd_fp: MIN_CWND_FP,
            prev_cwnd_fp: MIN_CWND_FP,
            last_increase: false,
            metric_registry: None,
            ack_metric: None,
        }
    }
}

} // verus!
