//! A rate-limited FIFO link with a bounded buffer and tail drop.
//!
//! Invariants: the buffer never exceeds its capacity; exactly one drain
//! event is pending iff the buffer is non-empty; the departed packets are
//! a subsequence of the arrived packets (drops never reorder survivors).

use vstd::prelude::*;
use crate::base::{Action, Emit, NetObjId, Packet, PktId, SimError};
use crate::fixedpoint::{mul_div_sat, spec_mul_div_sat};
use crate::subseq::{
    is_subseq_of, lemma_subseq_grow_right, lemma_subseq_push_both, lemma_subseq_take,
};
use crate::time::{Time, MICROS_PER_SEC};

verus! {

/// The uids of a buffer's packets, in order.
pub open spec fn buf_ids(s: Seq<Packet>) -> Seq<PktId> {
    s.map_values(|p: Packet| p.uid)
}

/// Microseconds needed to serialise `size` bytes at `rate_bps` bits per
/// second, saturating; this is the spacing between drain events.
pub open spec fn spec_transmit_micros(size: u64, rate_bps: u64) -> int {
    spec_mul_div_sat(size, (8 * MICROS_PER_SEC) as u64, rate_bps)
}

pub struct Link {
    rate_bps: u64,
    buf_capacity: usize,
    next_hop: NetObjId,
    buffer: Vec<Packet>,
    drain_pending: bool,
    arrived: Ghost<Seq<PktId>>,
    departed: Ghost<Seq<PktId>>,
}

impl Link {
    /// Every packet uid ever pushed at this link, in arrival order
    /// (dropped ones included).
    pub closed spec fn arrived_ids(self) -> Seq<PktId> {
        self.arrived@
    }

    /// Every packet uid this link has handed to its next hop, in order.
    pub closed spec fn departed_ids(self) -> Seq<PktId> {
        self.departed@
    }

    pub closed spec fn buffer_view(self) -> Seq<Packet> {
        self.buffer@
    }

    pub closed spec fn capacity(self) -> int {
        self.buf_capacity as int
    }

    pub closed spec fn rate(self) -> u64 {
        self.rate_bps
    }

    pub closed spec fn next_hop_id(self) -> NetObjId {
        self.next_hop
    }

    /// One drain event is pending iff the buffer is non-empty.
    pub closed spec fn drain_is_pending(self) -> bool {
        self.drain_pending
    }

    pub closed spec fn wf(self) -> bool {
        &&& self.rate_bps > 0
        &&& self.buffer@.len() <= self.buf_capacity
        &&& self.drain_pending <==> self.buffer@.len() > 0
        &&& is_subseq_of(self.departed@ + buf_ids(self.buffer@), self.arrived@)
    }

    /// The same configuration: only buffer and history change over a run.
    pub closed spec fn same_config(self, o: Link) -> bool {
        self.rate_bps == o.rate_bps && self.buf_capacity == o.buf_capacity && self.next_hop
            == o.next_hop
    }

    pub fn new(rate_bps: u64, buf_capacity: usize, next_hop: NetObjId) -> (l: Link)
        requires
            rate_bps > 0,
        ensures
            l.wf(),
            l.rate() == rate_bps,
            l.capacity() == buf_capacity,
            l.next_hop_id() == next_hop,
            l.buffer_view() =~= Seq::<Packet>::empty(),
            l.arrived_ids() =~= Seq::<PktId>::empty(),
            l.departed_ids() =~= Seq::<PktId>::empty(),
    {
        let l = Link {
            rate_bps,
            buf_capacity,
            next_hop,
            buffer: Vec::new(),
            drain_pending: false,
            arrived: Ghost(Seq::empty()),
            departed: Ghost(Seq::empty()),
        };
        proof {
            let f = |i: int| i;
            assert(crate::subseq::subseq_map(f, l.departed@ + buf_ids(l.buffer@), l.arrived@));
        }
        l
    }

    pub fn buffer_len(&self) -> (r: usize)
        ensures
            r == self.buffer_view().len(),
    {
        self.buffer.len()
    }

    /// The uid of the packet at the head of the buffer, if any.
    pub fn front_uid(&self) -> (r: Option<u64>)
        ensures
            match r {
                Some(u) => self.buffer_view().len() > 0 && u == self.buffer_view()[0].uid,
                None => self.buffer_view().len() == 0,
            },
    {
        if self.buffer.len() == 0 {
            None
        } else {
            Some(self.buffer[0].uid)
        }
    }

    /// Deliver a packet to this link. If the buffer is full (in particular
    /// whenever the capacity is zero) the packet is dropped silently;
    /// otherwise it is enqueued, and if the buffer was empty a single
    /// drain event is scheduled one serialisation time from `now`.
    pub fn push(&mut self, self_id: NetObjId, from: NetObjId, now: Time, pkt: Packet) -> (res: Vec<
        Emit,
    >)
        requires
            old(self).wf(),
        ensures
            final(self).wf(),
            final(self).same_config(*old(self)),
            final(self).arrived_ids() == old(self).arrived_ids().push(pkt.uid),
            final(self).departed_ids() == old(self).departed_ids(),
            final(self).drain_is_pending() == (final(self).buffer_view().len() > 0),
            if old(self).buffer_view().len() == old(self).capacity() {
                final(self).buffer_view() == old(self).buffer_view() && res@.len() == 0
            } else {
                final(self).buffer_view() == old(self).buffer_view().push(pkt) && if old(
                    self,
                ).buffer_view().len() == 0 {
                    res@.len() == 1 && res@[0] == (Emit {
                        time: Time {
                            micros: if now.micros + spec_transmit_micros(
                                pkt.size_bytes,
                                old(self).rate(),
                            ) <= u64::MAX {
                                (now.micros + spec_transmit_micros(
                                    pkt.size_bytes,
                                    old(self).rate(),
                                )) as u64
                            } else {
                                u64::MAX
                            },
                        },
                        target: self_id,
                        action: Action::Event(0),
                    })
                } else {
                    res@.len() == 0
                }
            },
    {
        let ghost old_combined = self.departed@ + buf_ids(self.buffer@);
        self.arrived = Ghost(self.arrived@.push(pkt.uid));
        let mut res: Vec<Emit> = Vec::new();
        if self.buffer.len() == self.buf_capacity {
            // Tail drop: the arrival is recorded, nothing else changes.
            proof {
                lemma_subseq_grow_right(old_combined, old(self).arrived@, pkt.uid);
            }
        } else {
            let was_empty = self.buffer.len() == 0;
            self.buffer.push(pkt);
            self.drain_pending = true;
            proof {
                assert(self.departed@ + buf_ids(self.buffer@) =~= old_combined.push(pkt.uid));
                lemma_subseq_push_both(old_combined, old(self).arrived@, pkt.uid);
            }
            if was_empty {
                let micros = mul_div_sat(pkt.size_bytes, 8 * MICROS_PER_SEC, self.rate_bps);
                res.push(
                    Emit {
                        time: now.add_time(Time::from_micros(micros)),
                        target: self_id,
                        action: Action::Event(0),
                    },
                );
            }
        }
        res
    }

    /// A drain event fired: hand the head of the buffer to the next hop
    /// at `now`, and if packets remain schedule the next drain. A drain
    /// event with an empty buffer is a modelling bug.
    pub fn event(&mut self, self_id: NetObjId, from: NetObjId, now: Time, uid: u64) -> (res: Result<
        Vec<Emit>,
        SimError,
    >)
        requires
            old(self).wf(),
        ensures
            final(self).wf(),
            final(self).same_config(*old(self)),
            final(self).arrived_ids() == old(self).arrived_ids(),
            res matches Err(e) ==> e == SimError::InvariantViolation && *final(self) == *old(self)
                && old(self).buffer_view().len() == 0,
            old(self).buffer_view().len() == 0 ==> res is Err,
            res matches Ok(emits) ==> {
                let head = old(self).buffer_view()[0];
                let rest = old(self).buffer_view().subrange(
                    1,
                    old(self).buffer_view().len() as int,
                );
                &&& old(self).buffer_view().len() > 0
                &&& final(self).buffer_view() == rest
                &&& final(self).departed_ids() == old(self).departed_ids().push(head.uid)
                &&& emits@.len() == (if rest.len() > 0 {
                    2int
                } else {
                    1int
                })
                &&& emits@[0] == (Emit {
                    time: now,
                    target: old(self).next_hop_id(),
                    action: Action::Push(head),
                })
                &&& rest.len() > 0 ==> emits@[1] == (Emit {
                    time: Time {
                        micros: if now.micros + spec_transmit_micros(
                            rest[0].size_bytes,
                            old(self).rate(),
                        ) <= u64::MAX {
                            (now.micros + spec_transmit_micros(
                                rest[0].size_bytes,
                                old(self).rate(),
                            )) as u64
                        } else {
                            u64::MAX
                        },
                    },
                    target: self_id,
                    action: Action::Event(0),
                })
            },
    {
        if self.buffer.len() == 0 {
            return Err(SimError::InvariantViolation);
        }
        let ghost old_combined = self.departed@ + buf_ids(self.buffer@);
        let head = self.buffer.remove(0);
        self.departed = Ghost(self.departed@.push(head.uid));
        let mut emits: Vec<Emit> = Vec::new();
        emits.push(Emit { time: now, target: self.next_hop, action: Action::Push(head) });
        if self.buffer.len() > 0 {
            let next_size = self.buffer[0].size_bytes;
            let micros = mul_div_sat(next_size, 8 * MICROS_PER_SEC, self.rate_bps);
            emits.push(
                Emit {
                    time: now.add_time(Time::from_micros(micros)),
                    target: self_id,
                    action: Action::Event(0),
                },
            );
            self.drain_pending = true;
        } else {
            self.drain_pending = false;
        }
        proof {
            assert(self.departed@ + buf_ids(self.buffer@) =~= old_combined);
        }
        Ok(emits)
    }

    /// The departed sequence is a subsequence of the arrived sequence: a
    /// link may drop packets but never reorders the survivors.
    pub proof fn lemma_output_subseq_of_input(self)
        requires
            self.wf(),
        ensures
            is_subseq_of(self.departed_ids(), self.arrived_ids()),
    {
        let combined = self.departed@ + buf_ids(self.buffer@);
        lemma_subseq_take(combined, self.arrived@, self.departed@.len() as int);
        assert(combined.take(self.departed@.len() as int) =~= self.departed@);
    }

    /// The buffer never holds more than `capacity` packets, and a drain
    /// event is pending exactly when the buffer is non-empty.
    pub proof fn lemma_buffer_bounded(self)
        requires
            self.wf(),
        ensures
            self.buffer_view().len() <= self.capacity(),
            self.drain_is_pending() <==> self.buffer_view().len() > 0,
    {
    }
}

} // verus!
