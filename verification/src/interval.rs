//! An interval algebra over exact rationals: half-lines and bounded
//! intervals with open, closed, or absent endpoints, and lists of such
//! intervals closed under intersection. Membership is decided by the
//! rational value, so every contract quantifies over value pairs
//! `n / d` with `d > 0`.

use vstd::prelude::*;
use crate::rational::{rat_wf, Rational};

verus! {

/// One endpoint: absent, included, or excluded.
#[derive(Clone, Copy, Debug, PartialEq, Eq, Structural)]
pub enum Bnd {
    Unbounded,
    Included(Rational),
    Excluded(Rational),
}

pub open spec fn bnd_wf(b: Bnd) -> bool {
    match b {
        Bnd::Unbounded => true,
        Bnd::Included(r) => rat_wf(r),
        Bnd::Excluded(r) => rat_wf(r),
    }
}

/// `n/d` satisfies `b` as a lower endpoint.
pub open spec fn lo_sat(b: Bnd, n: int, d: int) -> bool {
    match b {
        Bnd::Unbounded => true,
        Bnd::Included(r) => (r.num as int) * d <= n * (r.den as int),
        Bnd::Excluded(r) => (r.num as int) * d < n * (r.den as int),
    }
}

/// `n/d` satisfies `b` as an upper endpoint.
pub open spec fn hi_sat(b: Bnd, n: int, d: int) -> bool {
    match b {
        Bnd::Unbounded => true,
        Bnd::Included(r) => n * (r.den as int) <= (r.num as int) * d,
        Bnd::Excluded(r) => n * (r.den as int) < (r.num as int) * d,
    }
}

#[derive(Clone, Copy, Debug, PartialEq, Eq, Structural)]
pub struct Interval {
    pub lo: Bnd,
    pub hi: Bnd,
}

impl Interval {
    pub fn new(lo: Bnd, hi: Bnd) -> (r: Interval)
        ensures
            r.lo == lo && r.hi == hi,
    {
        Interval { lo, hi }
    }
}

pub open spec fn interval_wf(iv: Interval) -> bool {
    bnd_wf(iv.lo) && bnd_wf(iv.hi)
}

pub open spec fn interval_contains(iv: Interval, n: int, d: int) -> bool {
    lo_sat(iv.lo, n, d) && hi_sat(iv.hi, n, d)
}

pub open spec fn interval_nonempty(iv: Interval) -> bool {
    exists|n: int, d: int| d > 0 && #[trigger] interval_contains(iv, n, d)
}

/// Transitivity over fractions: `a/b <= c/d <= e/f` chains.
proof fn lemma_fle_fle(an: int, ad: int, bn: int, bd: int, cn: int, cd: int)
    requires
        ad > 0,
        bd > 0,
        cd > 0,
        an * bd <= bn * ad,
        bn * cd <= cn * bd,
    ensures
        an * cd <= cn * ad,
{
    assert(an * cd <= cn * ad) by (nonlinear_arith)
        requires
            ad > 0,
            bd > 0,
            cd > 0,
            an * bd <= bn * ad,
            bn * cd <= cn * bd,
    ;
}

proof fn lemma_fle_flt(an: int, ad: int, bn: int, bd: int, cn: int, cd: int)
    requires
        ad > 0,
        bd > 0,
        cd > 0,
        an * bd <= bn * ad,
        bn * cd < cn * bd,
    ensures
        an * cd < cn * ad,
{
    assert(an * cd < cn * ad) by (nonlinear_arith)
        requires
            ad > 0,
            bd > 0,
            cd > 0,
            an * bd <= bn * ad,
            bn * cd < cn * bd,
    ;
}

proof fn lemma_flt_fle(an: int, ad: int, bn: int, bd: int, cn: int, cd: int)
    requires
        ad > 0,
        bd > 0,
        cd > 0,
        an * bd < bn * ad,
        bn * cd <= cn * bd,
    ensures
        an * cd < cn * ad,
{
    assert(an * cd < cn * ad) by (nonlinear_arith)
        requires
            ad > 0,
            bd > 0,
            cd > 0,
            an * bd < bn * ad,
            bn * cd <= cn * bd,
    ;
}

/// The rationals are dense: between `p < q` sits their midpoint,
/// strictly on both sides.
proof fn lemma_mid(pn: int, pd: int, qn: int, qd: int)
    requires
        pd > 0,
        qd > 0,
        pn * qd < qn * pd,
    ensures
        2 * pd * qd > 0,
        pn * (2 * pd * qd) < (pn * qd + qn * pd) * pd,
        (pn * qd + qn * pd) * qd < qn * (2 * pd * qd),
{
    assert(2 * pd * qd > 0 && pn * (2 * pd * qd) < (pn * qd + qn * pd) * pd && (pn * qd + qn * pd)
        * qd < qn * (2 * pd * qd)) by (nonlinear_arith)
        requires
            pd > 0,
            qd > 0,
            pn * qd < qn * pd,
    ;
}

/// The tightest common lower endpoint: satisfied exactly when both are.
fn combine_lo(a: Bnd, b: Bnd) -> (r: Bnd)
    requires
        bnd_wf(a),
        bnd_wf(b),
    ensures
        bnd_wf(r),
        forall|n: int, d: int|
            d > 0 ==> (#[trigger] lo_sat(r, n, d) <==> lo_sat(a, n, d) && lo_sat(b, n, d)),
{
    match (a, b) {
        (Bnd::Unbounded, x) => x,
        (x, Bnd::Unbounded) => x,
        (Bnd::Included(p), Bnd::Included(q)) => {
            if p.le(&q) {
                proof {
                    assert forall|n: int, d: int| d > 0 && #[trigger] lo_sat(Bnd::Included(q), n, d)
                        implies lo_sat(Bnd::Included(p), n, d) by {
                        lemma_fle_fle(p.num as int, p.den as int, q.num as int, q.den as int, n, d);
                    }
                }
                Bnd::Included(q)
            } else {
                proof {
                    assert forall|n: int, d: int| d > 0 && #[trigger] lo_sat(Bnd::Included(p), n, d)
                        implies lo_sat(Bnd::Included(q), n, d) by {
                        lemma_fle_fle(q.num as int, q.den as int, p.num as int, p.den as int, n, d);
                    }
                }
                Bnd::Included(p)
            }
        },
        (Bnd::Included(p), Bnd::Excluded(q)) => {
            if p.le(&q) {
                proof {
                    assert forall|n: int, d: int| d > 0 && #[trigger] lo_sat(Bnd::Excluded(q), n, d)
                        implies lo_sat(Bnd::Included(p), n, d) by {
                        lemma_fle_flt(p.num as int, p.den as int, q.num as int, q.den as int, n, d);
                    }
                }
                Bnd::Excluded(q)
            } else {
                proof {
                    assert forall|n: int, d: int| d > 0 && #[trigger] lo_sat(Bnd::Included(p), n, d)
                        implies lo_sat(Bnd::Excluded(q), n, d) by {
                        lemma_flt_fle(q.num as int, q.den as int, p.num as int, p.den as int, n, d);
                    }
                }
                Bnd::Included(p)
            }
        },
        (Bnd::Excluded(q), Bnd::Included(p)) => {
            if p.le(&q) {
                proof {
                    assert forall|n: int, d: int| d > 0 && #[trigger] lo_sat(Bnd::Excluded(q), n, d)
                        implies lo_sat(Bnd::Included(p), n, d) by {
                        lemma_fle_flt(p.num as int, p.den as int, q.num as int, q.den as int, n, d);
                    }
                }
                Bnd::Excluded(q)
            } else {
                proof {
                    assert forall|n: int, d: int| d > 0 && #[trigger] lo_sat(Bnd::Included(p), n, d)
                        implies lo_sat(Bnd::Excluded(q), n, d) by {
                        lemma_flt_fle(q.num as int, q.den as int, p.num as int, p.den as int, n, d);
                    }
                }
                Bnd::Included(p)
            }
        },
        (Bnd::Excluded(p), Bnd::Excluded(q)) => {
            if p.le(&q) {
                proof {
                    assert forall|n: int, d: int| d > 0 && #[trigger] lo_sat(Bnd::Excluded(q), n, d)
                        implies lo_sat(Bnd::Excluded(p), n, d) by {
                        lemma_fle_flt(p.num as int, p.den as int, q.num as int, q.den as int, n, d);
                    }
                }
                Bnd::Excluded(q)
            } else {
                proof {
                    assert forall|n: int, d: int| d > 0 && #[trigger] lo_sat(Bnd::Excluded(p), n, d)
                        implies lo_sat(Bnd::Excluded(q), n, d) by {
                        lemma_fle_flt(q.num as int, q.den as int, p.num as int, p.den as int, n, d);
                    }
                }
                Bnd::Excluded(p)
            }
        },
    }
}

/// The tightest common upper endpoint: satisfied exactly when both are.
fn combine_hi(a: Bnd, b: Bnd) -> (r: Bnd)
    requires
        bnd_wf(a),
        bnd_wf(b),
    ensures
        bnd_wf(r),
        forall|n: int, d: int|
            d > 0 ==> (#[trigger] hi_sat(r, n, d) <==> hi_sat(a, n, d) && hi_sat(b, n, d)),
{
    match (a, b) {
        (Bnd::Unbounded, x) => x,
        (x, Bnd::Unbounded) => x,
        (Bnd::Included(p), Bnd::Included(q)) => {
            if q.le(&p) {
                proof {
                    assert forall|n: int, d: int| d > 0 && #[trigger] hi_sat(Bnd::Included(q), n, d)
                        implies hi_sat(Bnd::Included(p), n, d) by {
                        lemma_fle_fle(n, d, q.num as int, q.den as int, p.num as int, p.den as int);
                    }
                }
                Bnd::Included(q)
            } else {
                proof {
                    assert forall|n: int, d: int| d > 0 && #[trigger] hi_sat(Bnd::Included(p), n, d)
                        implies hi_sat(Bnd::Included(q), n, d) by {
                        lemma_fle_fle(n, d, p.num as int, p.den as int, q.num as int, q.den as int);
                    }
                }
                Bnd::Included(p)
            }
        },
        (Bnd::Included(p), Bnd::Excluded(q)) => {
            if q.le(&p) {
                proof {
                    assert forall|n: int, d: int| d > 0 && #[trigger] hi_sat(Bnd::Excluded(q), n, d)
                        implies hi_sat(Bnd::Included(p), n, d) by {
                        lemma_flt_fle(n, d, q.num as int, q.den as int, p.num as int, p.den as int);
                    }
                }
                Bnd::Excluded(q)
            } else {
                proof {
                    assert forall|n: int, d: int| d > 0 && #[trigger] hi_sat(Bnd::Included(p), n, d)
                        implies hi_sat(Bnd::Excluded(q), n, d) by {
                        lemma_fle_flt(n, d, p.num as int, p.den as int, q.num as int, q.den as int);
                    }
                }
                Bnd::Included(p)
            }
        },
        (Bnd::Excluded(q), Bnd::Included(p)) => {
            if q.le(&p) {
                proof {
                    assert forall|n: int, d: int| d > 0 && #[trigger] hi_sat(Bnd::Excluded(q), n, d)
                        implies hi_sat(Bnd::Included(p), n, d) by {
                        lemma_flt_fle(n, d, q.num as int, q.den as int, p.num as int, p.den as int);
                    }
                }
                Bnd::Excluded(q)
            } else {
                proof {
                    assert forall|n: int, d: int| d > 0 && #[trigger] hi_sat(Bnd::Included(p), n, d)
                        implies hi_sat(Bnd::Excluded(q), n, d) by {
                        lemma_fle_flt(n, d, p.num as int, p.den as int, q.num as int, q.den as int);
                    }
                }
                Bnd::Included(p)
            }
        },
        (Bnd::Excluded(p), Bnd::Excluded(q)) => {
            if q.le(&p) {
                proof {
                    assert forall|n: int, d: int| d > 0 && #[trigger] hi_sat(Bnd::Excluded(q), n, d)
                        implies hi_sat(Bnd::Excluded(p), n, d) by {
                        lemma_flt_fle(n, d, q.num as int, q.den as int, p.num as int, p.den as int);
                    }
                }
                Bnd::Excluded(q)
            } else {
                proof {
                    assert forall|n: int, d: int| d > 0 && #[trigger] hi_sat(Bnd::Excluded(p), n, d)
                        implies hi_sat(Bnd::Excluded(q), n, d) by {
                        lemma_flt_fle(n, d, p.num as int, p.den as int, q.num as int, q.den as int);
                    }
                }
                Bnd::Excluded(p)
            }
        },
    }
}

/// Decide emptiness exactly.
fn interval_is_empty(iv: &Interval) -> (r: bool)
    requires
        interval_wf(*iv),
    ensures
        r == !interval_nonempty(*iv),
{
    match (iv.lo, iv.hi) {
        (Bnd::Unbounded, Bnd::Unbounded) => {
            proof {
                assert(interval_contains(*iv, 0, 1));
            }
            false
        },
        (Bnd::Unbounded, Bnd::Included(q)) => {
            proof {
                assert(interval_contains(*iv, q.num as int, q.den as int));
            }
            false
        },
        (Bnd::Unbounded, Bnd::Excluded(q)) => {
            proof {
                assert(interval_contains(*iv, q.num - q.den, q.den as int)) by (nonlinear_arith)
                    requires
                        iv.lo == Bnd::Unbounded && iv.hi == Bnd::Excluded(q) && q.den > 0,
                ;
            }
            false
        },
        (Bnd::Included(p), Bnd::Unbounded) => {
            proof {
                assert(interval_contains(*iv, p.num as int, p.den as int));
            }
            false
        },
        (Bnd::Excluded(p), Bnd::Unbounded) => {
            proof {
                assert(interval_contains(*iv, p.num + p.den, p.den as int)) by (nonlinear_arith)
                    requires
                        iv.lo == Bnd::Excluded(p) && iv.hi == Bnd::Unbounded && p.den > 0,
                ;
            }
            false
        },
        (Bnd::Included(p), Bnd::Included(q)) => {
            if p.le(&q) {
                proof {
                    assert(interval_contains(*iv, p.num as int, p.den as int));
                }
                false
            } else {
                proof {
                    assert forall|n: int, d: int| d > 0 implies !interval_contains(*iv, n, d) by {
                        if interval_contains(*iv, n, d) {
                            lemma_fle_fle(
                                p.num as int,
                                p.den as int,
                                n,
                                d,
                                q.num as int,
                                q.den as int,
                            );
                        }
                    }
                }
                true
            }
        },
        (Bnd::Included(p), Bnd::Excluded(q)) => {
            if p.lt(&q) {
                proof {
                    lemma_mid(p.num as int, p.den as int, q.num as int, q.den as int);
                    let mn = (p.num as int) * (q.den as int) + (q.num as int) * (p.den as int);
                    let md = 2 * (p.den as int) * (q.den as int);
                    assert(interval_contains(*iv, mn, md));
                }
                false
            } else {
                proof {
                    assert forall|n: int, d: int| d > 0 implies !interval_contains(*iv, n, d) by {
                        if interval_contains(*iv, n, d) {
                            lemma_fle_flt(
                                p.num as int,
                                p.den as int,
                                n,
                                d,
                                q.num as int,
                                q.den as int,
                            );
                        }
                    }
                }
                true
            }
        },
        (Bnd::Excluded(p), Bnd::Included(q)) => {
            if p.lt(&q) {
                proof {
                    lemma_mid(p.num as int, p.den as int, q.num as int, q.den as int);
                    let mn = (p.num as int) * (q.den as int) + (q.num as int) * (p.den as int);
                    let md = 2 * (p.den as int) * (q.den as int);
                    assert(interval_contains(*iv, mn, md));
                }
                false
            } else {
                proof {
                    assert forall|n: int, d: int| d > 0 implies !interval_contains(*iv, n, d) by {
                        if interval_contains(*iv, n, d) {
                            lemma_flt_fle(
                                p.num as int,
                                p.den as int,
                                n,
                                d,
                                q.num as int,
                                q.den as int,
                            );
                        }
                    }
                }
                true
            }
        },
        (Bnd::Excluded(p), Bnd::Excluded(q)) => {
            if p.lt(&q) {
                proof {
                    lemma_mid(p.num as int, p.den as int, q.num as int, q.den as int);
                    let mn = (p.num as int) * (q.den as int) + (q.num as int) * (p.den as int);
                    let md = 2 * (p.den as int) * (q.den as int);
                    assert(interval_contains(*iv, mn, md));
                }
                false
            } else {
                proof {
                    assert forall|n: int, d: int| d > 0 implies !interval_contains(*iv, n, d) by {
                        if interval_contains(*iv, n, d) {
                            lemma_flt_fle(
                                p.num as int,
                                p.den as int,
                                n,
                                d,
                                q.num as int,
                                q.den as int,
                            );
                        }
                    }
                }
                true
            }
        },
    }
}

/// A set of rationals as a list of non-empty intervals. Membership is
/// membership in some listed interval.
pub struct IntervalList {
    ivs: Vec<Interval>,
}

impl IntervalList {
    pub closed spec fn ivs_view(self) -> Seq<Interval> {
        self.ivs@
    }

    pub closed spec fn wf(self) -> bool {
        forall|k: int|
            0 <= k < self.ivs@.len() ==> interval_wf(#[trigger] self.ivs@[k]) && interval_nonempty(
                self.ivs@[k],
            )
    }

    /// The value `n/d` (`d > 0`) lies in the represented set.
    pub closed spec fn contains(self, n: int, d: int) -> bool {
        exists|k: int|
            0 <= k < self.ivs@.len() && #[trigger] interval_contains(self.ivs@[k], n, d)
    }

    /// The list of one interval (or none, when it is empty).
    pub fn new_interval(iv: Interval) -> (r: IntervalList)
        requires
            interval_wf(iv),
        ensures
            r.wf(),
            forall|n: int, d: int|
                d > 0 ==> (#[trigger] r.contains(n, d) <==> interval_contains(iv, n, d)),
    {
        let mut ivs: Vec<Interval> = Vec::new();
        if !interval_is_empty(&iv) {
            ivs.push(iv);
        }
        let r = IntervalList { ivs };
        proof {
            assert forall|n: int, d: int| d > 0 implies (#[trigger] r.contains(n, d)
                <==> interval_contains(iv, n, d)) by {
                if interval_contains(iv, n, d) && r.ivs@.len() > 0 {
                    assert(interval_contains(r.ivs@[0], n, d));
                }
            }
        }
        r
    }

    /// The whole line.
    pub fn unbounded() -> (r: IntervalList)
        ensures
            r.wf(),
            forall|n: int, d: int| d > 0 ==> #[trigger] r.contains(n, d),
    {
        IntervalList::new_interval(Interval { lo: Bnd::Unbounded, hi: Bnd::Unbounded })
    }

    /// The half-line above `b`.
    pub fn interval_lower(b: Bnd) -> (r: IntervalList)
        requires
            bnd_wf(b),
        ensures
            r.wf(),
            forall|n: int, d: int|
                d > 0 ==> (#[trigger] r.contains(n, d) <==> lo_sat(b, n, d)),
    {
        IntervalList::new_interval(Interval { lo: b, hi: Bnd::Unbounded })
    }

    /// The half-line below `b`.
    pub fn interval_upper(b: Bnd) -> (r: IntervalList)
        requires
            bnd_wf(b),
        ensures
            r.wf(),
            forall|n: int, d: int|
                d > 0 ==> (#[trigger] r.contains(n, d) <==> hi_sat(b, n, d)),
    {
        IntervalList::new_interval(Interval { lo: Bnd::Unbounded, hi: b })
    }

    /// Whether the represented set is empty.
    pub fn is_empty(&self) -> (r: bool)
        requires
            self.wf(),
        ensures
            r <==> (forall|n: int, d: int| d > 0 ==> !#[trigger] self.contains(n, d)),
    {
        if self.ivs.len() == 0 {
            true
        } else {
            proof {
                assert(interval_nonempty(self.ivs@[0]));
                let (n, d) = choose|n: int, d: int|
                    d > 0 && #[trigger] interval_contains(self.ivs@[0], n, d);
                assert(self.contains(n, d));
            }
            false
        }
    }

    pub fn num_intervals(&self) -> (r: usize)
        ensures
            r == self.ivs_view().len(),
    {
        self.ivs.len()
    }

    /// Set intersection: pairwise interval intersections, dropping the
    /// empty ones.
    #[verifier::loop_isolation(false)]
    pub fn intersection(&self, other: &IntervalList) -> (r: IntervalList)
        requires
            self.wf(),
            other.wf(),
        ensures
            r.wf(),
            forall|n: int, d: int|
                d > 0 ==> (#[trigger] r.contains(n, d) <==> self.contains(n, d) && other.contains(
                    n,
                    d,
                )),
    {
        let na = self.ivs.len();
        let nb = other.ivs.len();
        let mut out: Vec<Interval> = Vec::new();
        let mut i: usize = 0;
        while i < na
            invariant
                0 <= i <= na,
                forall|k: int|
                    0 <= k < out@.len() ==> interval_wf(#[trigger] out@[k]) && interval_nonempty(
                        out@[k],
                    ),
                forall|k: int, n: int, d: int|
                    0 <= k < out@.len() && d > 0 && #[trigger] interval_contains(out@[k], n, d)
                        ==> self.contains(n, d) && other.contains(n, d),
                forall|ii: int, jj: int, n: int, d: int|
                    0 <= ii < i && 0 <= jj < nb && d > 0 && #[trigger] interval_contains(
                        self.ivs@[ii],
                        n,
                        d,
                    ) && #[trigger] interval_contains(other.ivs@[jj], n, d) ==> exists|k: int|
                        0 <= k < out@.len() && #[trigger] interval_contains(out@[k], n, d),
            decreases na - i,
        {
            let a = self.ivs[i];
            let mut j: usize = 0;
            while j < nb
                invariant
                    0 <= j <= nb,
                    0 <= i < na,
                    a == self.ivs@[i as int],
                    forall|k: int|
                        0 <= k < out@.len() ==> interval_wf(#[trigger] out@[k])
                            && interval_nonempty(out@[k]),
                    forall|k: int, n: int, d: int|
                        0 <= k < out@.len() && d > 0 && #[trigger] interval_contains(out@[k], n, d)
                            ==> self.contains(n, d) && other.contains(n, d),
                    forall|ii: int, jj: int, n: int, d: int|
                        0 <= ii < i && 0 <= jj < nb && d > 0 && #[trigger] interval_contains(
                            self.ivs@[ii],
                            n,
                            d,
                        ) && #[trigger] interval_contains(other.ivs@[jj], n, d) ==> exists|k: int|
                            0 <= k < out@.len() && #[trigger] interval_contains(out@[k], n, d),
                    forall|jj: int, n: int, d: int|
                        0 <= jj < j && d > 0 && #[trigger] interval_contains(
                            self.ivs@[i as int],
                            n,
                            d,
                        ) && #[trigger] interval_contains(other.ivs@[jj], n, d) ==> exists|k: int|
                            0 <= k < out@.len() && #[trigger] interval_contains(out@[k], n, d),
                decreases nb - j,
            {
                let b = other.ivs[j];
                let lo = combine_lo(a.lo, b.lo);
                let hi = combine_hi(a.hi, b.hi);
                let cand = Interval { lo, hi };
                let ghost out_before = out@;
                if !interval_is_empty(&cand) {
                    out.push(cand);
                    proof {
                        assert forall|k: int, n: int, d: int|
                            0 <= k < out@.len() && d > 0 && #[trigger] interval_contains(
                                out@[k],
                                n,
                                d,
                            ) implies self.contains(n, d) && other.contains(n, d) by {
                            if k < out_before.len() {
                                assert(out@[k] == out_before[k]);
                            } else {
                                assert(out@[k] == cand);
                                assert(interval_contains(self.ivs@[i as int], n, d));
                                assert(interval_contains(other.ivs@[j as int], n, d));
                            }
                        }
                    }
                }
                proof {
                    assert forall|jj: int, n: int, d: int|
                        0 <= jj < j + 1 && d > 0 && #[trigger] interval_contains(
                            self.ivs@[i as int],
                            n,
                            d,
                        ) && #[trigger] interval_contains(other.ivs@[jj], n, d) implies exists|
                        k: int,
                    |
                        0 <= k < out@.len() && #[trigger] interval_contains(out@[k], n, d) by {
                        if jj == j {
                            assert(interval_contains(cand, n, d));
                            assert(out@.last() == cand);
                            assert(interval_contains(out@[out@.len() - 1], n, d));
                        } else {
                            assert(exists|k: int|
                                0 <= k < out_before.len() && #[trigger] interval_contains(
                                    out_before[k],
                                    n,
                                    d,
                                ));
                            let k = choose|k: int|
                                0 <= k < out_before.len() && #[trigger] interval_contains(
                                    out_before[k],
                                    n,
                                    d,
                                );
                            assert(interval_contains(out@[k], n, d));
                        }
                    }
                    assert forall|ii: int, jj: int, n: int, d: int|
                        0 <= ii < i && 0 <= jj < nb && d > 0 && #[trigger] interval_contains(
                            self.ivs@[ii],
                            n,
                            d,
                        ) && #[trigger] interval_contains(other.ivs@[jj], n, d) implies exists|
                        k: int,
                    |
                        0 <= k < out@.len() && #[trigger] interval_contains(out@[k], n, d) by {
                        assert(exists|k: int|
                            0 <= k < out_before.len() && #[trigger] interval_contains(
                                out_before[k],
                                n,
                                d,
                            ));
                        let k = choose|k: int|
                            0 <= k < out_before.len() && #[trigger] interval_contains(
                                out_before[k],
                                n,
                                d,
                            );
                        assert(interval_contains(out@[k], n, d));
                    }
                }
                j = j + 1;
            }
            i = i + 1;
        }
        let ghost outv = out@;
        let r = IntervalList { ivs: out };
        proof {
            assert(r.ivs@ == outv);
            assert forall|n: int, d: int| d > 0 implies (#[trigger] r.contains(n, d)
                <==> self.contains(n, d) && other.contains(n, d)) by {
                if self.contains(n, d) && other.contains(n, d) {
                    let ii = choose|k: int|
                        0 <= k < self.ivs@.len() && #[trigger] interval_contains(
                            self.ivs@[k],
                            n,
                            d,
                        );
                    let jj = choose|k: int|
                        0 <= k < other.ivs@.len() && #[trigger] interval_contains(
                            other.ivs@[k],
                            n,
                            d,
                        );
                    assert(interval_contains(self.ivs@[ii], n, d) && interval_contains(
                        other.ivs@[jj],
                        n,
                        d,
                    ));
                    let k = choose|k: int|
                        0 <= k < outv.len() && #[trigger] interval_contains(outv[k], n, d);
                    assert(interval_contains(r.ivs@[k], n, d));
                    assert(r.contains(n, d));
                }
                if r.contains(n, d) {
                    let k = choose|k: int|
                        0 <= k < r.ivs@.len() && #[trigger] interval_contains(r.ivs@[k], n, d);
                    assert(interval_contains(outv[k], n, d));
                }
            }
        }
        r
    }

    /// The intersection of several sets (the whole line for none).
    #[verifier::loop_isolation(false)]
    pub fn from_interval_lists(ls: Vec<IntervalList>) -> (r: IntervalList)
        requires
            forall|k: int| 0 <= k < ls@.len() ==> (#[trigger] ls@[k]).wf(),
        ensures
            r.wf(),
            forall|n: int, d: int|
                d > 0 ==> (#[trigger] r.contains(n, d) <==> (forall|k: int|
                    0 <= k < ls@.len() ==> (#[trigger] ls@[k]).contains(n, d))),
    {
        let m = ls.len();
        let mut acc = IntervalList::unbounded();
        let mut i: usize = 0;
        while i < m
            invariant
                0 <= i <= m,
                acc.wf(),
                forall|n: int, d: int|
                    d > 0 ==> (#[trigger] acc.contains(n, d) <==> (forall|k: int|
                        0 <= k < i ==> (#[trigger] ls@[k]).contains(n, d))),
            decreases m - i,
        {
            let next = acc.intersection(&ls[i]);
            proof {
                assert forall|n: int, d: int| d > 0 implies (#[trigger] next.contains(n, d) <==> (
                forall|k: int| 0 <= k < i + 1 ==> (#[trigger] ls@[k]).contains(n, d))) by {
                    if next.contains(n, d) {
                        assert(acc.contains(n, d) && ls@[i as int].contains(n, d));
                        assert forall|k: int| 0 <= k < i + 1 implies (#[trigger] ls@[k]).contains(
                            n,
                            d,
                        ) by {
                            if k < i {
                                assert(ls@[k].contains(n, d));
                            }
                        }
                    } else {
                        if forall|k: int| 0 <= k < i + 1 ==> (#[trigger] ls@[k]).contains(n, d) {
                            assert(forall|k: int|
                                0 <= k < i ==> (#[trigger] ls@[k]).contains(n, d));
                            assert(ls@[i as int].contains(n, d));
                            assert(acc.contains(n, d));
                        }
                    }
                }
            }
            acc = next;
            i = i + 1;
        }
        acc
    }
}

} // verus!
