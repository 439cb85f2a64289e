//! A sliding-window RTT summariser: the minimum RTT over the samples of a
//! configurable history window, and a smoothed RTT (EWMA with gain 1/8).
//! With no samples yet the smoothed RTT falls back to zero.

use vstd::prelude::*;
use crate::time::Time;

verus! {

/// The smoothed RTT after absorbing `rtt`: the sample itself for the
/// first observation, else the 1/8-gain EWMA, rounded down.
pub open spec fn spec_ewma(srtt: u64, rtt: u64, first: bool) -> int {
    if first {
        rtt as int
    } else {
        (7 * srtt + rtt) / 8
    }
}

pub struct RTTWindow {
    hist_dur: Time,
    samples: Vec<(Time, Time)>,
    srtt: Time,
    seen_any: bool,
}

impl RTTWindow {
    /// In-window samples as `(arrival time, rtt)` pairs, oldest first.
    pub closed spec fn samples_view(self) -> Seq<(Time, Time)> {
        self.samples@
    }

    pub closed spec fn hist_period(self) -> Time {
        self.hist_dur
    }

    pub closed spec fn srtt_micros(self) -> u64 {
        self.srtt.micros
    }

    pub closed spec fn has_seen_sample(self) -> bool {
        self.seen_any
    }

    pub fn new(hist_dur: Time) -> (w: RTTWindow)
        ensures
            w.hist_period() == hist_dur,
            w.samples_view() =~= Seq::<(Time, Time)>::empty(),
            w.srtt_micros() == 0,
            !w.has_seen_sample(),
    {
        RTTWindow { hist_dur, samples: Vec::new(), srtt: Time { micros: 0 }, seen_any: false }
    }

    /// Absorb one RTT observation made at `now`.
    pub fn new_rtt_sample(&mut self, rtt: Time, now: Time)
        ensures
            final(self).hist_period() == old(self).hist_period(),
            final(self).samples_view() == old(self).samples_view().push((now, rtt)),
            final(self).srtt_micros() == spec_ewma(
                old(self).srtt_micros(),
                rtt.micros,
                !old(self).has_seen_sample(),
            ),
            final(self).has_seen_sample(),
    {
        if !self.seen_any {
            self.srtt = rtt;
            self.seen_any = true;
        } else {
            let mixed: u128 = (7 * (self.srtt.micros as u128) + (rtt.micros as u128)) / 8;
            proof {
                assert(7 * (self.srtt.micros as int) + rtt.micros <= 8 * (u64::MAX as int));
            }
            self.srtt = Time { micros: (mixed as u64) };
        }
        self.samples.push((now, rtt));
    }

    /// Set the history window to `dur` and drop every sample that fell
    /// before `now - dur`.
    #[verifier::loop_isolation(false)]
    pub fn change_hist_period(&mut self, dur: Time, now: Time)
        ensures
            final(self).hist_period() == dur,
            final(self).srtt_micros() == old(self).srtt_micros(),
            final(self).has_seen_sample() == old(self).has_seen_sample(),
            final(self).samples_view() == old(self).samples_view().filter(
                |s: (Time, Time)|
                    s.0.micros + dur.micros >= now.micros,
            ),
    {
        self.hist_dur = dur;
        let ghost pred = |s: (Time, Time)| s.0.micros + dur.micros >= now.micros;
        let n = self.samples.len();
        let mut kept: Vec<(Time, Time)> = Vec::new();
        let mut i: usize = 0;
        proof {
            reveal(Seq::filter);
            assert(old(self).samples@.subrange(0, 0).filter(pred) =~= Seq::<(
                Time,
                Time,
            )>::empty());
        }
        while i < n
            invariant
                0 <= i <= n,
                n == self.samples@.len(),
                self.samples@ == old(self).samples@,
                kept@ == old(self).samples@.subrange(0, i as int).filter(pred),
            decreases n - i,
        {
            let (t, r) = self.samples[i];
            proof {
                reveal(Seq::filter);
                let prefix = old(self).samples@.subrange(0, i + 1);
                assert(prefix.drop_last() =~= old(self).samples@.subrange(0, i as int));
                assert(prefix.last() == old(self).samples@[i as int]);
                assert((t, r) == old(self).samples@[i as int]);
            }
            if u64::MAX - t.micros < dur.micros || t.micros + dur.micros >= now.micros {
                proof {
                    assert(pred((t, r)));
                }
                kept.push((t, r));
            } else {
                proof {
                    assert(!pred((t, r)));
                }
            }
            i = i + 1;
        }
        proof {
            assert(old(self).samples@.subrange(0, n as int) =~= old(self).samples@);
        }
        self.samples = kept;
    }

    /// The smallest in-window RTT, if any sample is in the window.
    #[verifier::loop_isolation(false)]
    pub fn get_min_rtt(&self) -> (r: Option<Time>)
        ensures
            match r {
                None => self.samples_view().len() == 0,
                Some(m) => (exists|i: int|
                    0 <= i < self.samples_view().len() && (#[trigger] self.samples_view()[i]).1
                        == m) && (forall|i: int|
                    0 <= i < self.samples_view().len() ==> (#[trigger] self.samples_view()[i]).1.micros
                        >= m.micros),
            },
    {
        let n = self.samples.len();
        if n == 0 {
            return None;
        }
        let mut best: Time = self.samples[0].1;
        let mut i: usize = 1;
        while i < n
            invariant
                1 <= i <= n,
                n == self.samples@.len(),
                exists|j: int|
                    0 <= j < i && (#[trigger] self.samples@[j]).1 == best,
                forall|j: int| 0 <= j < i ==> (#[trigger] self.samples@[j]).1.micros >= best.micros,
            decreases n - i,
        {
            let cand = self.samples[i].1;
            if cand.micros < best.micros {
                best = cand;
            }
            i = i + 1;
        }
        proof {
            let j = choose|j: int| 0 <= j < n && (#[trigger] self.samples@[j]).1 == best;
            assert((self.samples_view()[j]).1 == best);
            assert(forall|k: int|
                0 <= k < self.samples_view().len() ==> (#[trigger] self.samples_view()[k]).1.micros
                    >= best.micros) by {
                assert(forall|k: int|
                    0 <= k < self.samples@.len() ==> (#[trigger] self.samples@[k]).1.micros
                        >= best.micros);
            }
        }
        Some(best)
    }

    /// The smoothed RTT; zero before the first sample.
    pub fn get_srtt(&self) -> (r: Time)
        ensures
            r.micros == self.srtt_micros(),
    {
        self.srtt
    }
}

} // verus!
