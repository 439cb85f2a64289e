//! The acker: every data packet addressed to it is answered at once with
//! a 40-byte cumulative ack for the next expected sequence number.

use vstd::prelude::*;
use crate::base::{Action, Addr, Emit, IdAlloc, NetObjId, Packet, PacketType, SimError};
use crate::time::Time;

verus! {

/// Size in bytes of every ack packet.
pub const ACK_SIZE_BYTES: u64 = 40;

pub struct Acker {
    addr: Addr,
    next_hop: NetObjId,
}

/// The ack produced for a data packet `pkt` carrying `seq_num`, given the
/// fresh uid `uid`: `ack_seq` is `seq_num + 1` (saturating only at the
/// untaken top of the id space), the original send time and packet uid
/// are echoed, and source and destination are swapped.
pub open spec fn spec_ack_for(pkt: Packet, seq_num: u64, acker_addr: Addr, uid: u64, now: Time) -> Packet {
    Packet {
        uid,
        sent_time: now,
        size_bytes: ACK_SIZE_BYTES,
        src: acker_addr,
        dest: pkt.src,
        ptype: PacketType::Ack {
            orig_sent_time: pkt.sent_time,
            ack_uid: pkt.uid,
            ack_seq: if seq_num < u64::MAX {
                (seq_num + 1) as u64
            } else {
                u64::MAX
            },
        },
    }
}

impl Acker {
    pub closed spec fn own_addr(self) -> Addr {
        self.addr
    }

    pub closed spec fn next_hop_id(self) -> NetObjId {
        self.next_hop
    }

    pub fn new(addr: Addr, next_hop: NetObjId) -> (a: Acker)
        ensures
            a.own_addr() == addr,
            a.next_hop_id() == next_hop,
    {
        Acker { addr, next_hop }
    }

    /// A data packet addressed to this acker yields exactly one ack,
    /// pushed toward the configured next hop at `now`; anything else is
    /// swallowed silently.
    pub fn push(&mut self, self_id: NetObjId, from: NetObjId, now: Time, pkt: Packet, ids: &mut IdAlloc) -> (res: Vec<Emit>)
        ensures
            *final(self) == *old(self),
            match pkt.ptype {
                PacketType::Data { seq_num } => if pkt.dest == old(self).own_addr() {
                    &&& res@.len() == 1
                    &&& res@[0] == (Emit {
                        time: now,
                        target: old(self).next_hop_id(),
                        action: Action::Push(
                            spec_ack_for(
                                pkt,
                                seq_num,
                                old(self).own_addr(),
                                old(ids).next_pkt_uid(),
                                now,
                            ),
                        ),
                    })
                    &&& final(ids).issued_one_more(*old(ids))
                } else {
                    res@.len() == 0 && *final(ids) == *old(ids)
                },
                PacketType::Ack { .. } => res@.len() == 0 && *final(ids) == *old(ids),
            },
    {
        let mut res: Vec<Emit> = Vec::new();
        match pkt.ptype {
            PacketType::Data { seq_num } => {
                if pkt.dest == self.addr {
                    let uid = ids.fresh_pkt_uid();
                    let ack_seq = if seq_num < u64::MAX {
                        seq_num + 1
                    } else {
                        u64::MAX
                    };
                    let ack = Packet {
                        uid,
                        sent_time: now,
                        size_bytes: ACK_SIZE_BYTES,
                        src: self.addr,
                        dest: pkt.src,
                        ptype: PacketType::Ack {
                            orig_sent_time: pkt.sent_time,
                            ack_uid: pkt.uid,
                            ack_seq,
                        },
                    };
                    res.push(Emit { time: now, target: self.next_hop, action: Action::Push(ack) });
                }
            },
            PacketType::Ack { .. } => {},
        }
        res
    }

    /// The acker has no timers.
    pub fn event(&mut self, self_id: NetObjId, from: NetObjId, now: Time, uid: u64) -> (res: Result<
        Vec<Emit>,
        SimError,
    >)
        ensures
            *final(self) == *old(self),
            res matches Err(e) && e == SimError::InvariantViolation,
    {
        Err(SimError::InvariantViolation)
    }
}

} // verus!
