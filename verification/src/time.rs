//! Monotonic simulation time: a non-negative count of microseconds since
//! simulation start. Subtraction saturates at zero.

use vstd::prelude::*;

verus! {

/// Microseconds per second, the base of all time conversions.
pub const MICROS_PER_SEC: u64 = 1_000_000;

/// A point in simulation time, measured in whole microseconds.
#[derive(Clone, Copy, Debug, PartialEq, Eq, Structural)]
pub struct Time {
    pub micros: u64,
}

impl Time {
    /// The simulation start instant.
    pub fn zero() -> (t: Time)
        ensures
            t.micros == 0,
    {
        Time { micros: 0 }
    }

    pub fn from_micros(micros: u64) -> (t: Time)
        ensures
            t.micros == micros,
    {
        Time { micros }
    }

    pub fn from_secs(secs: u64) -> (t: Time)
        requires
            secs * MICROS_PER_SEC <= u64::MAX,
        ensures
            t.micros == secs * MICROS_PER_SEC,
    {
        Time { micros: secs * MICROS_PER_SEC }
    }

    pub fn micros(&self) -> (r: u64)
        ensures
            r == self.micros,
    {
        self.micros
    }

    /// `self + d`, saturating at the largest representable instant.
    pub fn add_time(self, d: Time) -> (t: Time)
        ensures
            t.micros == if self.micros + d.micros <= u64::MAX {
                self.micros + d.micros
            } else {
                u64::MAX as int
            },
    {
        if u64::MAX - self.micros >= d.micros {
            Time { micros: self.micros + d.micros }
        } else {
            Time { micros: u64::MAX }
        }
    }

    /// `self - d`, saturating at zero.
    pub fn sub_sat(self, d: Time) -> (t: Time)
        ensures
            t.micros == if self.micros >= d.micros {
                self.micros - d.micros
            } else {
                0int
            },
    {
        if self.micros >= d.micros {
            Time { micros: self.micros - d.micros }
        } else {
            Time { micros: 0 }
        }
    }

    pub fn le(self, o: Time) -> (r: bool)
        ensures
            r == (self.micros <= o.micros),
    {
        self.micros <= o.micros
    }

    pub fn lt(self, o: Time) -> (r: bool)
        ensures
            r == (self.micros < o.micros),
    {
        self.micros < o.micros
    }

    pub fn min_time(self, o: Time) -> (t: Time)
        ensures
            t.micros == if self.micros <= o.micros {
                self.micros as int
            } else {
                o.micros as int
            },
    {
        if self.micros <= o.micros {
            self
        } else {
            o
        }
    }

    pub fn max_time(self, o: Time) -> (t: Time)
        ensures
            t.micros == if self.micros >= o.micros {
                self.micros as int
            } else {
                o.micros as int
            },
    {
        if self.micros >= o.micros {
            self
        } else {
            o
        }
    }
}

} // verus!
