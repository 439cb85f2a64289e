//! The router: a destination-to-port forwarding table over a list of
//! ports. A packet whose destination has no route aborts the simulation
//! with `UnroutableDestination`. The router has no timers.

use vstd::prelude::*;
use crate::base::{Action, Addr, Emit, NetObjId, Packet, SimError};
use crate::time::Time;

verus! {

/// First match in an association list.
pub open spec fn assoc_lookup(s: Seq<(Addr, usize)>, a: Addr) -> Option<usize>
    decreases s.len(),
{
    if s.len() == 0 {
        None
    } else if s[0].0 == a {
        Some(s[0].1)
    } else {
        assoc_lookup(s.subrange(1, s.len() as int), a)
    }
}

pub struct Router {
    addr: Addr,
    routes: Vec<(Addr, usize)>,
    ports: Vec<NetObjId>,
}

impl Router {
    pub closed spec fn own_addr(self) -> Addr {
        self.addr
    }

    pub closed spec fn routes_view(self) -> Seq<(Addr, usize)> {
        self.routes@
    }

    pub closed spec fn ports_view(self) -> Seq<NetObjId> {
        self.ports@
    }

    /// The port index a destination resolves to, if any.
    pub open spec fn route_of(self, a: Addr) -> Option<usize> {
        assoc_lookup(self.routes_view(), a)
    }

    /// Every routed port index points inside the port list.
    pub closed spec fn wf(self) -> bool {
        forall|i: int|
            0 <= i < self.routes@.len() ==> (#[trigger] self.routes@[i]).1 < self.ports@.len()
    }

    pub fn new(addr: Addr) -> (r: Router)
        ensures
            r.wf(),
            r.own_addr() == addr,
            r.routes_view() =~= Seq::<(Addr, usize)>::empty(),
            r.ports_view() =~= Seq::<NetObjId>::empty(),
    {
        Router { addr, routes: Vec::new(), ports: Vec::new() }
    }

    /// Register a neighbour and return its port index.
    pub fn add_port(&mut self, obj: NetObjId) -> (port: usize)
        requires
            old(self).wf(),
            old(self).ports_view().len() < usize::MAX,
        ensures
            final(self).wf(),
            final(self).own_addr() == old(self).own_addr(),
            final(self).routes_view() == old(self).routes_view(),
            final(self).ports_view() == old(self).ports_view().push(obj),
            port == old(self).ports_view().len(),
    {
        let port = self.ports.len();
        self.ports.push(obj);
        port
    }

    /// Route a destination address to an existing port.
    pub fn add_route(&mut self, a: Addr, port: usize)
        requires
            old(self).wf(),
            port < old(self).ports_view().len(),
        ensures
            final(self).wf(),
            final(self).own_addr() == old(self).own_addr(),
            final(self).ports_view() == old(self).ports_view(),
            final(self).routes_view() == old(self).routes_view().push((a, port)),
    {
        self.routes.push((a, port));
    }

    /// Forward a packet by its destination. A packet for the router's own
    /// address is delivered locally (swallowed); a packet with no route
    /// aborts the run.
    pub fn push(&mut self, self_id: NetObjId, from: NetObjId, now: Time, pkt: Packet) -> (res:
        Result<Vec<Emit>, SimError>)
        requires
            old(self).wf(),
        ensures
            *final(self) == *old(self),
            pkt.dest == old(self).own_addr() ==> (res matches Ok(emits) && emits@.len() == 0),
            pkt.dest != old(self).own_addr() ==> match old(self).route_of(pkt.dest) {
                Some(port) => res matches Ok(emits) && emits@.len() == 1 && emits@[0] == (Emit {
                    time: now,
                    target: old(self).ports_view()[port as int],
                    action: Action::Push(pkt),
                }),
                None => res matches Err(e) && e == SimError::UnroutableDestination,
            },
    {
        let mut res: Vec<Emit> = Vec::new();
        if pkt.dest == self.addr {
            return Ok(res);
        }
        let n = self.routes.len();
        let mut i: usize = 0;
        proof {
            assert(self.routes@.subrange(0, n as int) =~= self.routes@);
        }
        while i < n
            invariant
                *self == *old(self),
                n == self.routes@.len(),
                0 <= i <= n,
                self.wf(),
                res@.len() == 0,
                pkt.dest != old(self).own_addr(),
                assoc_lookup(self.routes@, pkt.dest) == assoc_lookup(
                    self.routes@.subrange(i as int, n as int),
                    pkt.dest,
                ),
            decreases n - i,
        {
            let (a, port) = self.routes[i];
            proof {
                assert(self.routes@.subrange(i as int, n as int)[0] == self.routes@[i as int]);
                assert(self.routes@.subrange(i as int, n as int).subrange(
                    1,
                    (n - i) as int,
                ) =~= self.routes@.subrange(i + 1, n as int));
            }
            if a == pkt.dest {
                proof {
                    let sub = self.routes@.subrange(i as int, n as int);
                    assert(a == self.routes@[i as int].0 && port == self.routes@[i as int].1);
                    assert(sub[0] == self.routes@[i as int]);
                    assert(assoc_lookup(sub, pkt.dest) == Some(port));
                }
                let target = self.ports[port];
                res.push(Emit { time: now, target, action: Action::Push(pkt) });
                return Ok(res);
            }
            i = i + 1;
        }
        proof {
            assert(self.routes@.subrange(n as int, n as int) =~= Seq::<(Addr, usize)>::empty());
        }
        Err(SimError::UnroutableDestination)
    }

    /// The router has no timers.
    pub fn event(&mut self, self_id: NetObjId, from: NetObjId, now: Time, uid: u64) -> (res: Result<
        Vec<Emit>,
        SimError,
    >)
        ensures
            *final(self) == *old(self),
            res matches Err(e) && e == SimError::InvariantViolation,
    {
        Err(SimError::InvariantViolation)
    }
}

} // verus!
