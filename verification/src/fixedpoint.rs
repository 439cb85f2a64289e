//! Saturating integer helpers used for rate and window arithmetic.
//!
//! Congestion windows and rates are kept as unsigned fixed-point numbers
//! (a value scaled by [`FP_SCALE`]); every product is computed exactly in
//! 128 bits and saturates at `u64::MAX` on the way back down.

use vstd::prelude::*;

verus! {

/// Fixed-point scale: one unit of a scaled quantity is `1 / FP_SCALE`.
pub const FP_SCALE: u64 = 65536;

/// Exact value of `min(a * b / c, u64::MAX)` over the integers
/// (`/` is floor division; `c > 0`).
pub open spec fn spec_mul_div_sat(a: u64, b: u64, c: u64) -> int {
    if (a * b) / (c as int) <= u64::MAX {
        (a * b) / (c as int)
    } else {
        u64::MAX as int
    }
}

/// `a * b / c`, computed exactly and saturated at `u64::MAX`.
pub fn mul_div_sat(a: u64, b: u64, c: u64) -> (r: u64)
    requires
        c > 0,
    ensures
        r == spec_mul_div_sat(a, b, c),
{
    proof {
        assert((a as int) * (b as int) <= (u64::MAX as int) * (u64::MAX as int))
            by (nonlinear_arith)
            requires
                a <= u64::MAX,
                b <= u64::MAX,
        ;
    }
    let p: u128 = (a as u128) * (b as u128) / (c as u128);
    if p > u64::MAX as u128 {
        u64::MAX
    } else {
        p as u64
    }
}

/// `a + b`, saturating at `u64::MAX`.
pub fn add_sat(a: u64, b: u64) -> (r: u64)
    ensures
        r == if a + b <= u64::MAX { a + b } else { u64::MAX as int },
{
    if u64::MAX - a >= b {
        a + b
    } else {
        u64::MAX
    }
}

/// One fixed-point unit of rate: packets-per-second arithmetic keeps
/// durations in microseconds, so a rate is `pkts * RATE_UNIT / micros`.
pub const RATE_UNIT: u64 = FP_SCALE * crate::time::MICROS_PER_SEC;

/// The fixed-point rate of `pkts` packets over `dur` microseconds,
/// saturated; a degenerate (zero) duration counts as rate zero.
pub open spec fn spec_rate_fp(pkts: int, dur: int) -> int {
    if dur > 0 {
        if (pkts * RATE_UNIT) / dur <= u64::MAX {
            (pkts * RATE_UNIT) / dur
        } else {
            u64::MAX as int
        }
    } else {
        0
    }
}

/// Exact saturated fixed-point rate; `pkts` may be a short sum of packet
/// counts, so it gets a little headroom beyond `u64`.
pub fn rate_fp_of(pkts: u128, dur: u128) -> (r: u64)
    requires
        pkts <= 16 * (u64::MAX as int),
        dur <= 16 * (u64::MAX as int),
    ensures
        r == spec_rate_fp(pkts as int, dur as int),
{
    if dur == 0 {
        return 0;
    }
    proof {
        assert((pkts as int) * (RATE_UNIT as int) <= (16 * (u64::MAX as int)) * (
        RATE_UNIT as int)) by (nonlinear_arith)
            requires
                pkts <= 16 * (u64::MAX as int),
        ;
    }
    let p: u128 = pkts * (RATE_UNIT as u128) / dur;
    if p > u64::MAX as u128 {
        u64::MAX
    } else {
        p as u64
    }
}

/// The capacity estimate `(snd·ack − f·ack) / (snd − ack)` in fixed
/// point, with negative values pinned at zero and the result saturated.
pub open spec fn spec_c_estimate_fp(snd: u64, ack: u64, f: u64) -> int {
    if snd <= ack {
        0
    } else if f >= snd {
        0
    } else if ((snd - f) * ack) / (snd - ack) <= u64::MAX {
        ((snd - f) * ack) / (snd - ack)
    } else {
        u64::MAX as int
    }
}

pub fn c_estimate_fp(snd: u64, ack: u64, f: u64) -> (r: u64)
    ensures
        r == spec_c_estimate_fp(snd, ack, f),
{
    if snd <= ack || f >= snd {
        return 0;
    }
    proof {
        assert(((snd - f) as int) * (ack as int) <= (u64::MAX as int) * (u64::MAX as int))
            by (nonlinear_arith)
            requires
                snd - f <= u64::MAX,
                ack <= u64::MAX,
        ;
    }
    let p: u128 = ((snd - f) as u128) * (ack as u128) / ((snd - ack) as u128);
    if p > u64::MAX as u128 {
        u64::MAX
    } else {
        p as u64
    }
}

/// Fixed-point division `a / b`, saturated; a zero divisor behaves as an
/// infinitesimal: the quotient saturates high unless `a` is zero too.
pub open spec fn spec_div_fp_sat(a: u64, b: u64) -> int {
    if b == 0 {
        if a == 0 {
            0
        } else {
            u64::MAX as int
        }
    } else if (a * FP_SCALE) / (b as int) <= u64::MAX {
        (a * FP_SCALE) / (b as int)
    } else {
        u64::MAX as int
    }
}

pub fn div_fp_sat(a: u64, b: u64) -> (r: u64)
    ensures
        r == spec_div_fp_sat(a, b),
{
    if b == 0 {
        if a == 0 {
            0
        } else {
            u64::MAX
        }
    } else {
        mul_div_sat(a, FP_SCALE, b)
    }
}

/// Rounding a fixed-point value to the nearest whole number (half up).
pub open spec fn spec_round_fp(fp: u64) -> int {
    (fp + FP_SCALE / 2) / (FP_SCALE as int)
}

pub fn round_fp(fp: u64) -> (r: u64)
    ensures
        r == spec_round_fp(fp),
{
    let wide: u128 = ((fp as u128) + ((FP_SCALE / 2) as u128)) / (FP_SCALE as u128);
    wide as u64
}

} // verus!
