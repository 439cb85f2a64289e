//! A constant propagation delay: every packet is forwarded unchanged to
//! the next hop exactly `delay` after it arrived. Arrival order is kept
//! because the scheduler breaks ties in insertion order.

use vstd::prelude::*;
use crate::base::{Action, Emit, NetObjId, Packet, SimError};
use crate::time::Time;

verus! {

pub struct Delay {
    delay: Time,
    next_hop: NetObjId,
    fifo: Vec<Packet>,
}

impl Delay {
    pub closed spec fn delay_time(self) -> Time {
        self.delay
    }

    pub closed spec fn next_hop_id(self) -> NetObjId {
        self.next_hop
    }

    pub closed spec fn fifo_view(self) -> Seq<Packet> {
        self.fifo@
    }

    pub closed spec fn same_config(self, o: Delay) -> bool {
        self.delay == o.delay && self.next_hop == o.next_hop
    }

    pub fn new(delay: Time, next_hop: NetObjId) -> (d: Delay)
        ensures
            d.delay_time() == delay,
            d.next_hop_id() == next_hop,
            d.fifo_view() =~= Seq::<Packet>::empty(),
    {
        Delay { delay, next_hop, fifo: Vec::new() }
    }

    /// Hold the packet and schedule its release one `delay` from `now`.
    pub fn push(&mut self, self_id: NetObjId, from: NetObjId, now: Time, pkt: Packet) -> (res: Vec<
        Emit,
    >)
        ensures
            final(self).same_config(*old(self)),
            final(self).fifo_view() == old(self).fifo_view().push(pkt),
            res@.len() == 1,
            res@[0] == (Emit {
                time: Time {
                    micros: if now.micros + old(self).delay_time().micros <= u64::MAX {
                        (now.micros + old(self).delay_time().micros) as u64
                    } else {
                        u64::MAX
                    },
                },
                target: self_id,
                action: Action::Event(0),
            }),
    {
        self.fifo.push(pkt);
        let mut res: Vec<Emit> = Vec::new();
        res.push(
            Emit { time: now.add_time(self.delay), target: self_id, action: Action::Event(0) },
        );
        res
    }

    /// A release timer fired: forward the oldest held packet at `now`.
    /// A timer with nothing held is a modelling bug.
    pub fn event(&mut self, self_id: NetObjId, from: NetObjId, now: Time, uid: u64) -> (res: Result<
        Vec<Emit>,
        SimError,
    >)
        ensures
            final(self).same_config(*old(self)),
            res matches Err(e) ==> e == SimError::InvariantViolation && *final(self) == *old(self)
                && old(self).fifo_view().len() == 0,
            old(self).fifo_view().len() == 0 ==> res is Err,
            res matches Ok(emits) ==> {
                &&& old(self).fifo_view().len() > 0
                &&& final(self).fifo_view() == old(self).fifo_view().subrange(
                    1,
                    old(self).fifo_view().len() as int,
                )
                &&& emits@.len() == 1
                &&& emits@[0] == (Emit {
                    time: now,
                    target: old(self).next_hop_id(),
                    action: Action::Push(old(self).fifo_view()[0]),
                })
            },
    {
        if self.fifo.len() == 0 {
            return Err(SimError::InvariantViolation);
        }
        let head = self.fifo.remove(0);
        let mut emits: Vec<Emit> = Vec::new();
        emits.push(Emit { time: now, target: self.next_hop, action: Action::Push(head) });
        Ok(emits)
    }
}

} // verus!
