//! Exact rational arithmetic on machine words: a value `num / den` with
//! a positive denominator. Operations compute the exact raw fraction in
//! 128 bits and succeed exactly when it fits back into the word-sized
//! window, so every result is exact and overflow is always detected.

use vstd::prelude::*;

verus! {

/// An exact rational `num / den`, `den > 0`. Fractions are not reduced;
/// value comparisons cross-multiply, which never overflows the wide
/// intermediates.
#[derive(Clone, Copy, Debug, PartialEq, Eq, Structural)]
pub struct Rational {
    pub num: i64,
    pub den: i64,
}

pub open spec fn rat_wf(r: Rational) -> bool {
    r.den > 0
}

/// `a/b <= c/d` over the rationals, as integers (`b, d > 0`).
pub open spec fn spec_frac_le(a: int, b: int, c: int, d: int) -> bool {
    a * d <= c * b
}

pub open spec fn rat_le(x: Rational, y: Rational) -> bool {
    spec_frac_le(x.num as int, x.den as int, y.num as int, y.den as int)
}

pub open spec fn rat_lt(x: Rational, y: Rational) -> bool {
    (x.num as int) * (y.den as int) < (y.num as int) * (x.den as int)
}

/// The raw sum and raw scaled product, as integer pairs.
pub open spec fn spec_raw_add(x: Rational, y: Rational) -> (int, int) {
    ((x.num as int) * (y.den as int) + (y.num as int) * (x.den as int), (x.den as int) * (
    y.den as int))
}

pub open spec fn spec_raw_scale(x: Rational, p: int, q: int) -> (int, int) {
    ((x.num as int) * p, (x.den as int) * q)
}

/// A raw fraction fits the word-sized window (the symmetric range, so
/// negation never surprises).
pub open spec fn spec_fits(f: (int, int)) -> bool {
    -(i64::MAX as int) <= f.0 <= i64::MAX && 0 < f.1 <= i64::MAX
}


/// Bounds for products of word-sized factors: they fit the wide type.
proof fn lemma_prod_bound(a: int, b: int)
    requires
        -0x8000_0000_0000_0000 <= a <= 0x7FFF_FFFF_FFFF_FFFF,
        -0x8000_0000_0000_0000 <= b <= 0x7FFF_FFFF_FFFF_FFFF,
    ensures
        -0x4000_0000_0000_0000_0000_0000_0000_0000 <= a * b
            <= 0x4000_0000_0000_0000_0000_0000_0000_0000,
{
    assert(-0x4000_0000_0000_0000_0000_0000_0000_0000 <= a * b
        <= 0x4000_0000_0000_0000_0000_0000_0000_0000) by (nonlinear_arith)
        requires
            -0x8000_0000_0000_0000 <= a <= 0x7FFF_FFFF_FFFF_FFFF,
            -0x8000_0000_0000_0000 <= b <= 0x7FFF_FFFF_FFFF_FFFF,
    ;
}

/// With a positive second factor the product stays strictly inside half
/// the wide range, so two such products can be added.
proof fn lemma_prod_bound_pos(a: int, b: int)
    requires
        -0x8000_0000_0000_0000 <= a <= 0x7FFF_FFFF_FFFF_FFFF,
        0 < b <= 0x7FFF_FFFF_FFFF_FFFF,
    ensures
        -0x3FFF_FFFF_FFFF_FFFF_8000_0000_0000_0000 <= a * b
            <= 0x3FFF_FFFF_FFFF_FFFF_8000_0000_0000_0000,
{
    assert(-0x3FFF_FFFF_FFFF_FFFF_8000_0000_0000_0000 <= a * b
        <= 0x3FFF_FFFF_FFFF_FFFF_8000_0000_0000_0000) by (nonlinear_arith)
        requires
            -0x8000_0000_0000_0000 <= a <= 0x7FFF_FFFF_FFFF_FFFF,
            0 < b <= 0x7FFF_FFFF_FFFF_FFFF,
    ;
}

impl Rational {
    pub fn new(num: i64, den: i64) -> (r: Rational)
        requires
            den > 0,
        ensures
            r.num == num && r.den == den && rat_wf(r),
    {
        Rational { num, den }
    }

    pub fn from_int(n: i64) -> (r: Rational)
        ensures
            r.num == n && r.den == 1 && rat_wf(r),
    {
        Rational { num: n, den: 1 }
    }

    pub fn zero() -> (r: Rational)
        ensures
            r.num == 0 && r.den == 1 && rat_wf(r),
    {
        Rational { num: 0, den: 1 }
    }

    pub fn le(&self, o: &Rational) -> (r: bool)
        requires
            rat_wf(*self),
            rat_wf(*o),
        ensures
            r == rat_le(*self, *o),
    {
        proof {
            lemma_prod_bound_pos(self.num as int, o.den as int);
            lemma_prod_bound_pos(o.num as int, self.den as int);
        }
        (self.num as i128) * (o.den as i128) <= (o.num as i128) * (self.den as i128)
    }

    pub fn lt(&self, o: &Rational) -> (r: bool)
        requires
            rat_wf(*self),
            rat_wf(*o),
        ensures
            r == rat_lt(*self, *o),
    {
        proof {
            lemma_prod_bound_pos(self.num as int, o.den as int);
            lemma_prod_bound_pos(o.num as int, self.den as int);
        }
        (self.num as i128) * (o.den as i128) < (o.num as i128) * (self.den as i128)
    }

    /// Exact addition; `None` exactly when the raw sum leaves the
    /// window.
    pub fn add_checked(&self, o: &Rational) -> (r: Option<Rational>)
        requires
            rat_wf(*self),
            rat_wf(*o),
        ensures
            match r {
                Some(c) => spec_fits(spec_raw_add(*self, *o)) && (c.num as int, c.den as int)
                    == spec_raw_add(*self, *o) && rat_wf(c),
                None => !spec_fits(spec_raw_add(*self, *o)),
            },
    {
        proof {
            lemma_prod_bound_pos(self.num as int, o.den as int);
            lemma_prod_bound_pos(o.num as int, self.den as int);
            lemma_prod_bound_pos(self.den as int, o.den as int);
        }
        let n: i128 = (self.num as i128) * (o.den as i128) + (o.num as i128) * (self.den as i128);
        let d: i128 = (self.den as i128) * (o.den as i128);
        if n < -(i64::MAX as i128) || n > i64::MAX as i128 || d > i64::MAX as i128 {
            None
        } else {
            proof {
                assert((self.den as int) * (o.den as int) > 0) by (nonlinear_arith)
                    requires
                        self.den > 0,
                        o.den > 0,
                ;
            }
            Some(Rational { num: n as i64, den: d as i64 })
        }
    }

    /// Exact scaling by a constant fraction `p / q`; `None` exactly when
    /// the raw product leaves the window.
    pub fn scale_checked(&self, p: i64, q: i64) -> (r: Option<Rational>)
        requires
            rat_wf(*self),
            q > 0,
        ensures
            match r {
                Some(c) => spec_fits(spec_raw_scale(*self, p as int, q as int)) && (
                c.num as int,
                c.den as int,
                ) == spec_raw_scale(*self, p as int, q as int) && rat_wf(c),
                None => !spec_fits(spec_raw_scale(*self, p as int, q as int)),
            },
    {
        proof {
            lemma_prod_bound(self.num as int, p as int);
            lemma_prod_bound_pos(self.den as int, q as int);
        }
        let n: i128 = (self.num as i128) * (p as i128);
        let d: i128 = (self.den as i128) * (q as i128);
        if n < -(i64::MAX as i128) || n > i64::MAX as i128 || d > i64::MAX as i128 {
            None
        } else {
            proof {
                assert((self.den as int) * (q as int) > 0) by (nonlinear_arith)
                    requires
                        self.den > 0,
                        q > 0,
                ;
            }
            Some(Rational { num: n as i64, den: d as i64 })
        }
    }
}

} // verus!
