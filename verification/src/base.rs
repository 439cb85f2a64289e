//! Shared simulation types: ids, packets, actions, scheduled emissions,
//! and the error kinds that abort a run.

use vstd::prelude::*;
use crate::time::Time;

verus! {

/// A transport sequence number.
pub type SeqNum = u64;

/// A unique packet id, issued once per packet and never recycled.
pub type PktId = u64;

/// A network address, issued by the scheduler and never recycled.
pub type Addr = u64;

/// A network object id: the index of the object in registration order.
pub type NetObjId = usize;

/// Payload kind of a packet.
#[derive(Clone, Copy, Debug, PartialEq, Eq, Structural)]
pub enum PacketType {
    Data { seq_num: SeqNum },
    Ack { orig_sent_time: Time, ack_uid: PktId, ack_seq: SeqNum },
}

/// An immutable packet. Content never changes after construction, so
/// sharing across queues is modelled by copying.
#[derive(Clone, Copy, Debug, PartialEq, Eq, Structural)]
pub struct Packet {
    pub uid: PktId,
    pub sent_time: Time,
    pub size_bytes: u64,
    pub src: Addr,
    pub dest: Addr,
    pub ptype: PacketType,
}

/// A value delivered to a network object: either a packet handed over by
/// another object, or a timer the object scheduled for itself.
#[derive(Clone, Copy, Debug, PartialEq, Eq, Structural)]
pub enum Action {
    Push(Packet),
    Event(u64),
}

/// A scheduled entry emitted by a network object: deliver `action` to
/// `target` at absolute time `time`.
#[derive(Clone, Copy, Debug, PartialEq, Eq, Structural)]
pub struct Emit {
    pub time: Time,
    pub target: NetObjId,
    pub action: Action,
}

/// Errors that abort the whole simulation. There is no per-event recovery:
/// every one of these is a modelling bug surfaced to the caller of
/// `simulate`.
#[derive(Clone, Copy, Debug, PartialEq, Eq, Structural)]
pub enum SimError {
    /// A router had no entry for a packet's destination.
    UnroutableDestination,
    /// An internal inconsistency: an ack beyond the last sent sequence,
    /// an event for an empty buffer, an emission into the past, or an
    /// emission to an unknown object id.
    InvariantViolation,
    /// A malformed metric configuration.
    ConfigError,
}

/// The allocator of fresh packet uids, owned by the scheduler and lent to
/// objects while they handle a dispatch. Uids are monotonically
/// increasing and never recycled (the counter pins at the top of the id
/// space, which no run ever reaches).
pub struct IdAlloc {
    next_pkt: u64,
}

impl IdAlloc {
    /// The uid the next created packet will get.
    pub closed spec fn next_pkt_uid(self) -> u64 {
        self.next_pkt
    }

    /// One uid was handed out: the counter moved up by one.
    pub open spec fn issued_one_more(self, prev: IdAlloc) -> bool {
        self.next_pkt_uid() == if prev.next_pkt_uid() < u64::MAX {
            prev.next_pkt_uid() + 1
        } else {
            u64::MAX as int
        }
    }

    pub fn new() -> (a: IdAlloc)
        ensures
            a.next_pkt_uid() == 0,
    {
        IdAlloc { next_pkt: 0 }
    }

    pub fn fresh_pkt_uid(&mut self) -> (r: u64)
        ensures
            r == old(self).next_pkt_uid(),
            final(self).issued_one_more(*old(self)),
    {
        let r = self.next_pkt;
        if self.next_pkt < u64::MAX {
            self.next_pkt = self.next_pkt + 1;
        }
        r
    }
}

impl SimError {
    /// A short stable label for the error, for logs and messages.
    pub fn label(&self) -> (r: &'static str)
        ensures
            self is UnroutableDestination ==> r@ == "UnroutableDestination"@,
            self is InvariantViolation ==> r@ == "InvariantViolation"@,
            self is ConfigError ==> r@ == "ConfigError"@,
    {
        match self {
            SimError::UnroutableDestination => "UnroutableDestination",
            SimError::InvariantViolation => "InvariantViolation",
            SimError::ConfigError => "ConfigError",
        }
    }
}

} // verus!
