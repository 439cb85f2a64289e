//! The discrete-event simulation kernel: a priority-ordered event queue
//! dispatching typed actions to registered network objects under strict
//! monotonic-time semantics.
//!
//! Queue order is `(fire_time, insertion_seq)` ascending, so events with
//! equal fire times dispatch in insertion order; the ghost dispatch
//! trace carries both guarantees as an invariant.

use vstd::prelude::*;
use crate::acker::Acker;
use crate::base::{Action, Addr, Emit, IdAlloc, NetObjId, SimError};
use crate::delay::Delay;
use crate::link::Link;
use crate::router::Router;
use crate::time::Time;
use crate::transport::TcpSender;

verus! {

/// A registered network object: the closed set the simulator knows.
pub enum NetObject {
    Link(Link),
    Delay(Delay),
    Acker(Acker),
    Router(Router),
    Sender(TcpSender),
}

impl NetObject {
    pub open spec fn wf(self) -> bool {
        match self {
            NetObject::Link(o) => o.wf(),
            NetObject::Delay(o) => true,
            NetObject::Acker(o) => true,
            NetObject::Router(o) => o.wf(),
            NetObject::Sender(o) => o.wf(),
        }
    }

    pub fn as_link(&self) -> (r: Option<&Link>)
        ensures
            match r {
                Some(o) => *self matches NetObject::Link(inner) && *o == inner,
                None => !(*self matches NetObject::Link(_)),
            },
    {
        match self {
            NetObject::Link(o) => Some(o),
            _ => None,
        }
    }

    pub fn as_sender(&self) -> (r: Option<&TcpSender>)
        ensures
            match r {
                Some(o) => *self matches NetObject::Sender(inner) && *o == inner,
                None => !(*self matches NetObject::Sender(_)),
            },
    {
        match self {
            NetObject::Sender(o) => Some(o),
            _ => None,
        }
    }

    /// Deliver one action to this object and collect what it emits.
    pub fn dispatch(
        &mut self,
        self_id: NetObjId,
        from: NetObjId,
        now: Time,
        action: Action,
        ids: &mut IdAlloc,
    ) -> (res: Result<Vec<Emit>, SimError>)
        requires
            old(self).wf(),
        ensures
            final(self).wf(),
    {
        match self {
            NetObject::Link(o) => match action {
                Action::Push(pkt) => Ok(o.push(self_id, from, now, pkt)),
                Action::Event(uid) => o.event(self_id, from, now, uid),
            },
            NetObject::Delay(o) => match action {
                Action::Push(pkt) => Ok(o.push(self_id, from, now, pkt)),
                Action::Event(uid) => o.event(self_id, from, now, uid),
            },
            NetObject::Acker(o) => match action {
                Action::Push(pkt) => Ok(o.push(self_id, from, now, pkt, ids)),
                Action::Event(uid) => o.event(self_id, from, now, uid),
            },
            NetObject::Router(o) => match action {
                Action::Push(pkt) => o.push(self_id, from, now, pkt),
                Action::Event(uid) => o.event(self_id, from, now, uid),
            },
            NetObject::Sender(o) => match action {
                Action::Push(pkt) => o.push(self_id, from, now, pkt, ids),
                Action::Event(uid) => o.event(self_id, from, now, uid, ids),
            },
        }
    }
}

/// A pending queue entry: deliver `action` from `src` to `target` at
/// `fire`; `seqn` is the insertion sequence breaking fire-time ties.
#[derive(Clone, Copy, Debug, PartialEq, Eq, Structural)]
pub struct QEntry {
    pub fire: Time,
    pub seqn: u64,
    pub src: NetObjId,
    pub target: NetObjId,
    pub action: Action,
}

/// Strict lexicographic order on `(fire_time, insertion_seq)`.
pub open spec fn lex_lt(a: (int, int), b: (int, int)) -> bool {
    a.0 < b.0 || (a.0 == b.0 && a.1 < b.1)
}

pub open spec fn entry_key(e: QEntry) -> (int, int) {
    (e.fire.micros as int, e.seqn as int)
}

/// The scheduler: owns all objects, the pending queue, the clock, and
/// the id wells. The ghost `trace` records every dispatched entry's key
/// in dispatch order.
pub struct Scheduler {
    now: Time,
    next_seq: u64,
    queue: Vec<QEntry>,
    objs: Vec<NetObject>,
    next_addr: Addr,
    ids: IdAlloc,
    trace: Ghost<Seq<(int, int)>>,
}

impl Scheduler {
    pub closed spec fn now_spec(self) -> Time {
        self.now
    }

    pub closed spec fn queue_view(self) -> Seq<QEntry> {
        self.queue@
    }

    pub closed spec fn objs_view(self) -> Seq<NetObject> {
        self.objs@
    }

    /// The keys of every dispatched entry, in dispatch order.
    pub closed spec fn trace_view(self) -> Seq<(int, int)> {
        self.trace@
    }

    pub closed spec fn wf(self) -> bool {
        &&& forall|i: int|
            0 <= i < self.queue@.len() ==> (#[trigger] self.queue@[i]).fire.micros
                >= self.now.micros
        &&& forall|i: int|
            0 <= i < self.queue@.len() ==> (#[trigger] self.queue@[i]).seqn < self.next_seq
        &&& forall|i: int, j: int|
            0 <= i < j < self.queue@.len() ==> (#[trigger] self.queue@[i]).seqn != (
            #[trigger] self.queue@[j]).seqn
        &&& forall|i: int| 0 <= i < self.objs@.len() ==> (#[trigger] self.objs@[i]).wf()
        &&& forall|i: int, j: int|
            0 <= i < j < self.trace@.len() ==> lex_lt(#[trigger] self.trace@[i], #[trigger] self.trace@[j])
        &&& (self.trace@.len() > 0 ==> forall|i: int|
            0 <= i < self.queue@.len() ==> lex_lt(
                self.trace@.last(),
                entry_key(#[trigger] self.queue@[i]),
            ))
        &&& (self.trace@.len() > 0 ==> self.trace@.last().0 <= self.now.micros)
        &&& (forall|i: int| 0 <= i < self.trace@.len() ==> (#[trigger] self.trace@[i]).1 < self.next_seq)
    }

    pub fn new() -> (s: Scheduler)
        ensures
            s.wf(),
            s.now_spec().micros == 0,
            s.queue_view() =~= Seq::<QEntry>::empty(),
            s.objs_view() =~= Seq::<NetObject>::empty(),
            s.trace_view() =~= Seq::<(int, int)>::empty(),
    {
        Scheduler {
            now: Time { micros: 0 },
            next_seq: 0,
            queue: Vec::new(),
            objs: Vec::new(),
            next_addr: 0,
            ids: IdAlloc::new(),
            trace: Ghost(Seq::empty()),
        }
    }

    pub fn now(&self) -> (t: Time)
        ensures
            t == self.now_spec(),
    {
        self.now
    }

    /// The id the next registered object will receive: ids are the
    /// indices in registration order, so callers may precompute them.
    pub fn next_obj_id(&self) -> (r: NetObjId)
        ensures
            r == self.objs_view().len(),
    {
        self.objs.len()
    }

    /// A fresh unique address.
    pub fn next_addr(&mut self) -> (a: Addr)
        requires
            old(self).wf(),
        ensures
            final(self).wf(),
            a == old(self).next_addr_spec(),
            final(self).next_addr_spec() == if old(self).next_addr_spec() < u64::MAX {
                old(self).next_addr_spec() + 1
            } else {
                u64::MAX as int
            },
            final(self).objs_view() == old(self).objs_view(),
            final(self).queue_view() == old(self).queue_view(),
            final(self).now_spec() == old(self).now_spec(),
            final(self).trace_view() == old(self).trace_view(),
    {
        let a = self.next_addr;
        if self.next_addr < u64::MAX {
            self.next_addr = self.next_addr + 1;
        }
        a
    }

    pub closed spec fn next_addr_spec(self) -> Addr {
        self.next_addr
    }

    /// Register the next object: it gets the next id in order.
    pub fn register_obj(&mut self, obj: NetObject) -> (id: NetObjId)
        requires
            old(self).wf(),
            obj.wf(),
        ensures
            final(self).wf(),
            id == old(self).objs_view().len(),
            final(self).objs_view() == old(self).objs_view().push(obj),
            final(self).queue_view() == old(self).queue_view(),
            final(self).now_spec() == old(self).now_spec(),
            final(self).trace_view() == old(self).trace_view(),
    {
        let id = self.objs.len();
        self.objs.push(obj);
        id
    }

    /// Read a registered object.
    pub fn get_obj(&self, id: NetObjId) -> (r: &NetObject)
        requires
            id < self.objs_view().len(),
        ensures
            *r == self.objs_view()[id as int],
    {
        &self.objs[id]
    }

    pub fn num_objs(&self) -> (r: usize)
        ensures
            r == self.objs_view().len(),
    {
        self.objs.len()
    }

    /// Enqueue an action for delivery at `fire_time`, never in the past.
    pub fn schedule(&mut self, fire_time: Time, target: NetObjId, action: Action)
        requires
            old(self).wf(),
            fire_time.micros >= old(self).now_spec().micros,
            target < old(self).objs_view().len(),
            old(self).next_seq_spec() < u64::MAX,
        ensures
            final(self).wf(),
            final(self).queue_view().len() == old(self).queue_view().len() + 1,
            final(self).objs_view() == old(self).objs_view(),
            final(self).now_spec() == old(self).now_spec(),
            final(self).trace_view() == old(self).trace_view(),
    {
        let seqn = self.next_seq;
        self.next_seq = self.next_seq + 1;
        self.queue.push(QEntry { fire: fire_time, seqn, src: target, target, action });
    }

    pub closed spec fn next_seq_spec(self) -> u64 {
        self.next_seq
    }

    /// The queue index of the entry with the least `(fire, seq)` key.
    #[verifier::loop_isolation(false)]
    fn find_min_idx(&self) -> (r: usize)
        requires
            self.queue_view().len() > 0,
        ensures
            r < self.queue_view().len(),
            forall|j: int|
                0 <= j < self.queue_view().len() && j != r ==> !lex_lt(
                    entry_key(#[trigger] self.queue_view()[j]),
                    entry_key(self.queue_view()[r as int]),
                ),
    {
        let n = self.queue.len();
        let mut best: usize = 0;
        let mut i: usize = 1;
        while i < n
            invariant
                0 <= best < i <= n,
                forall|j: int|
                    0 <= j < i && j != best ==> !lex_lt(
                        entry_key(#[trigger] self.queue@[j]),
                        entry_key(self.queue@[best as int]),
                    ),
            decreases n - i,
        {
            let c = self.queue[i];
            let b = self.queue[best];
            if c.fire.micros < b.fire.micros || (c.fire.micros == b.fire.micros && c.seqn
                < b.seqn) {
                best = i;
            }
            i = i + 1;
        }
        best
    }

    /// Run the simulation: repeatedly dispatch the earliest pending
    /// entry, until the queue empties, the next entry would fire past
    /// `stop_time`, or `max_steps` dispatches have happened. Returns
    /// whether the run came to rest (rather than running out of steps).
    /// Time only moves forward, and entries with equal fire times
    /// dispatch in insertion order: both facts are carried by the
    /// dispatch trace invariant in `wf`.
    #[verifier::loop_isolation(false)]
    pub fn simulate(&mut self, stop_time: Option<Time>, max_steps: usize) -> (res: Result<
        bool,
        SimError,
    >)
        requires
            old(self).wf(),
        ensures
            final(self).wf(),
            final(self).now_spec().micros >= old(self).now_spec().micros,
            old(self).trace_view().is_prefix_of(final(self).trace_view()),
            res matches Ok(true) ==> final(self).queue_view().len() == 0 || (stop_time matches Some(
                st,
            ) && forall|i: int|
                0 <= i < final(self).queue_view().len()
                    ==> (#[trigger] final(self).queue_view()[i]).fire.micros > st.micros),
            res matches Ok(false) ==> final(self).trace_view().len() == old(
                self,
            ).trace_view().len() + max_steps,
            res is Err ==> final(self).trace_view().len() > old(self).trace_view().len(),
    {
        let mut steps: usize = 0;
        while steps < max_steps
            invariant
                self.wf(),
                self.now.micros >= old(self).now.micros,
                old(self).trace@.is_prefix_of(self.trace@),
                self.trace@.len() == old(self).trace@.len() + steps,
                steps <= max_steps,
            decreases max_steps - steps,
        {
            if self.queue.len() == 0 {
                return Ok(true);
            }
            let idx = self.find_min_idx();
            let entry = self.queue[idx];
            match stop_time {
                Some(st) => {
                    if entry.fire.micros() > st.micros() {
                        proof {
                            assert forall|i: int| 0 <= i < self.queue@.len() implies (
                            #[trigger] self.queue@[i]).fire.micros > st.micros by {
                                assert(!lex_lt(
                                    entry_key(self.queue@[i]),
                                    entry_key(self.queue@[idx as int]),
                                ));
                            }
                        }
                        return Ok(true);
                    }
                },
                None => {},
            }
            match self.step_one(idx) {
                Ok(()) => {},
                Err(e) => {
                    return Err(e);
                },
            }
            steps = steps + 1;
        }
        Ok(false)
    }

    /// Dispatch the entry at `idx`, which must hold the least key:
    /// advance the clock to its fire time, deliver it, and enqueue
    /// everything the target emitted (events in the past or to unknown
    /// objects abort the run).
    #[verifier::loop_isolation(false)]
    fn step_one(&mut self, idx: usize) -> (res: Result<(), SimError>)
        requires
            old(self).wf(),
            idx < old(self).queue_view().len(),
            forall|j: int|
                0 <= j < old(self).queue_view().len() && j != idx ==> !lex_lt(
                    entry_key(#[trigger] old(self).queue_view()[j]),
                    entry_key(old(self).queue_view()[idx as int]),
                ),
        ensures
            final(self).wf(),
            final(self).now_spec().micros >= old(self).now_spec().micros,
            final(self).trace_view() == old(self).trace_view().push(
                entry_key(old(self).queue_view()[idx as int]),
            ),
    {
        let entry = self.queue.remove(idx);
        proof {
            assert forall|i: int| 0 <= i < self.queue@.len() implies !lex_lt(
                entry_key(#[trigger] self.queue@[i]),
                entry_key(entry),
            ) && (#[trigger] self.queue@[i]).seqn != entry.seqn by {
                if i < idx {
                    assert(self.queue@[i] == old(self).queue@[i]);
                } else {
                    assert(self.queue@[i] == old(self).queue@[i + 1]);
                }
            }
        }
        self.now = entry.fire;
        self.trace = Ghost(self.trace@.push(entry_key(entry)));
        proof {
            assert forall|i: int, j: int| 0 <= i < j < self.trace@.len() implies lex_lt(
                #[trigger] self.trace@[i],
                #[trigger] self.trace@[j],
            ) by {
                if j < self.trace@.len() - 1 {
                    assert(lex_lt(old(self).trace@[i], old(self).trace@[j]));
                } else if i < self.trace@.len() - 1 {
                    if old(self).trace@.len() > 0 && i == old(self).trace@.len() - 1 {
                        assert(lex_lt(old(self).trace@.last(), entry_key(entry)));
                    } else {
                        assert(lex_lt(old(self).trace@[i], old(self).trace@.last()));
                        assert(lex_lt(old(self).trace@.last(), entry_key(entry)));
                    }
                }
            }
            assert forall|i: int| 0 <= i < self.queue@.len() implies lex_lt(
                self.trace@.last(),
                entry_key(#[trigger] self.queue@[i]),
            ) by {
                assert(!lex_lt(entry_key(self.queue@[i]), entry_key(entry)));
                assert(self.queue@[i].seqn != entry.seqn);
            }
        }
        let target = entry.target;
        if target >= self.objs.len() {
            return Err(SimError::InvariantViolation);
        }
        let from = match entry.action {
            Action::Push(_) => entry.src,
            Action::Event(_) => entry.target,
        };
        let mut obj = NetObject::Acker(Acker::new(0, 0));
        std::mem::swap(&mut obj, &mut self.objs[target]);
        let dispatched = obj.dispatch(target, from, entry.fire, entry.action, &mut self.ids);
        std::mem::swap(&mut obj, &mut self.objs[target]);
        proof {
            assert(self.objs@ =~= old(self).objs@.update(target as int, self.objs@[target as int]));
        }
        let mut emits = match dispatched {
            Ok(emits) => emits,
            Err(e) => {
                return Err(e);
            },
        };
        let n_emits = emits.len();
        let mut k: usize = 0;
        while k < n_emits
            invariant
                0 <= k <= n_emits,
                n_emits == emits@.len(),
                self.wf(),
                self.now == entry.fire,
                self.trace@ == old(self).trace@.push(entry_key(entry)),
                self.objs@.len() == old(self).objs@.len(),
            decreases n_emits - k,
        {
            let e = emits[k];
            if e.time.micros() < self.now.micros() {
                return Err(SimError::InvariantViolation);
            }
            if e.target >= self.objs.len() {
                return Err(SimError::InvariantViolation);
            }
            if self.next_seq == u64::MAX {
                return Err(SimError::InvariantViolation);
            }
            let seqn = self.next_seq;
            self.next_seq = self.next_seq + 1;
            self.queue.push(
                QEntry { fire: e.time, seqn, src: target, target: e.target, action: e.action },
            );
            k = k + 1;
        }
        Ok(())
    }

    /// Time at dispatch never moves backward, and entries with equal
    /// fire times dispatch in insertion order: of any two dispatches,
    /// the later one fired no earlier, and at equal fire times it was
    /// the later insertion.
    pub proof fn lemma_trace_ordered(self, i: int, j: int)
        requires
            self.wf(),
            0 <= i < j < self.trace_view().len(),
        ensures
            self.trace_view()[i].0 <= self.trace_view()[j].0,
            self.trace_view()[i].0 == self.trace_view()[j].0 ==> self.trace_view()[i].1
                < self.trace_view()[j].1,
    {
    }
}

} // verus!
