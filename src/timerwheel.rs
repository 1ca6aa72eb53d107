//! A single-level hashed timer wheel with one-second resolution.
use std::collections::HashMap;
use vstd::prelude::*;
use vstd::std_specs::hash::*;

verus! {

broadcast use group_hash_axioms;

/// One scheduled entry: the value and how many more full turns of the wheel
/// it has to wait before it fires.
pub struct Slot<T> {
    pub round: u64,
    pub t: T,
}

/// The values of the entries of `s` whose round is zero, in order.
pub open spec fn ready_of<T>(s: Seq<Slot<T>>) -> Seq<T>
    decreases s.len(),
{
    if s.len() == 0 {
        Seq::empty()
    } else {
        let p = ready_of(s.drop_last());
        if s.last().round == 0 {
            p.push(s.last().t)
        } else {
            p
        }
    }
}

/// The entries of `s` that wait at least one more turn, each with one turn
/// less to wait, in order.
pub open spec fn later_of<T>(s: Seq<Slot<T>>) -> Seq<Slot<T>>
    decreases s.len(),
{
    if s.len() == 0 {
        Seq::empty()
    } else {
        let p = later_of(s.drop_last());
        if s.last().round == 0 {
            p
        } else {
            p.push(Slot { round: (s.last().round - 1) as u64, t: s.last().t })
        }
    }
}

/// The entries that the wheel holds in slot `k` (empty where it holds none).
pub open spec fn entries_at<T>(m: Map<u64, Vec<Slot<T>>>, k: u64) -> Seq<Slot<T>> {
    if m.contains_key(k) {
        m[k]@
    } else {
        Seq::empty()
    }
}

/// The wheel `w1` is `w0` with `value` scheduled `timeout` ticks ahead:
/// appended to slot `(tick + timeout) mod steps`, with round
/// `(tick + timeout) div steps`.
pub open spec fn scheduled<T>(w0: TimeWheel<T>, w1: TimeWheel<T>, timeout: u64, value: T) -> bool {
    let at = w0.spec_tick() + timeout;
    let k = (at % (w0.spec_steps() as int)) as u64;
    &&& w1.spec_steps() == w0.spec_steps()
    &&& w1.spec_tick() == w0.spec_tick()
    &&& w1.spec_slots().dom() == w0.spec_slots().dom().insert(k)
    &&& forall|j: u64| j != k ==> #[trigger] w1.spec_slots().index(j) == w0.spec_slots().index(j)
    &&& entries_at(w1.spec_slots(), k) == entries_at(w0.spec_slots(), k).push(
        Slot { round: (at / (w0.spec_steps() as int)) as u64, t: value },
    )
}

pub struct TimeWheel<T> {
    hashed: HashMap<u64, Vec<Slot<T>>>,
    steps: u64,
    tick: u64,
}

impl<T> TimeWheel<T> {
    /// Number of slots of the wheel.
    pub closed spec fn spec_steps(&self) -> u64 {
        self.steps
    }

    /// Number of ticks made since the wheel was created.
    pub closed spec fn spec_tick(&self) -> u64 {
        self.tick
    }

    /// What each slot holds.
    pub closed spec fn spec_slots(&self) -> Map<u64, Vec<Slot<T>>> {
        self.hashed@
    }

    pub open spec fn wf(&self) -> bool {
        self.spec_steps() > 0
    }

    /// Number of ticks made so far.
    pub fn now(&self) -> (r: u64)
        ensures
            r == self.spec_tick(),
    {
        self.tick
    }

    /// Creates a wheel of `steps` slots, at tick zero and holding nothing.
    pub fn new(steps: u64) -> (r: Self)
        requires
            steps > 0,
        ensures
            r.wf(),
            r.spec_steps() == steps,
            r.spec_tick() == 0,
            r.spec_slots() == Map::<u64, Vec<Slot<T>>>::empty(),
    {
        TimeWheel { steps: steps, hashed: HashMap::new(), tick: 0 }
    }

    /// Schedules `value` to fire `timeout` ticks from now: it goes to slot
    /// `(tick + timeout) mod steps` with round `(tick + timeout) div steps`.
    pub fn add(&mut self, timeout: u64, value: T)
        requires
            old(self).wf(),
            old(self).spec_tick() + timeout <= u64::MAX,
        ensures
            final(self).wf(),
            scheduled(*old(self), *final(self), timeout, value),
    {
        let at = timeout + self.tick;
        let slot = at % self.steps;
        let mut slots = match self.hashed.remove(&slot) {
            Some(v) => v,
            None => Vec::new(),
        };
        slots.push(Slot { t: value, round: at / self.steps });
        self.hashed.insert(slot, slots);
        assert(self.hashed@.dom() =~= old(self).hashed@.dom().insert(slot));
    }

    /// Advances the wheel by one tick. The slot `tick mod steps` is examined:
    /// where it holds entries, those of round zero fire and are returned in
    /// order, and the others stay with one round less.
    pub fn tick(&mut self) -> (r: Option<Vec<T>>)
        requires
            old(self).wf(),
            old(self).spec_tick() < u64::MAX,
        ensures
            final(self).wf(),
            final(self).spec_steps() == old(self).spec_steps(),
            final(self).spec_tick() == old(self).spec_tick() + 1,
            ({
                let k = (old(self).spec_tick() % old(self).spec_steps()) as u64;
                if old(self).spec_slots().contains_key(k) {
                    &&& r is Some
                    &&& r->0@ == ready_of(old(self).spec_slots()[k]@)
                    &&& final(self).spec_slots().dom() == old(self).spec_slots().dom()
                    &&& final(self).spec_slots()[k]@ == later_of(old(self).spec_slots()[k]@)
                    &&& forall|j: u64|
                        j != k ==> #[trigger] final(self).spec_slots().index(j) == old(
                            self,
                        ).spec_slots().index(j)
                } else {
                    &&& r is None
                    &&& final(self).spec_slots() == old(self).spec_slots()
                }
            }),
    {
        let step = self.tick % self.steps;
        self.tick = self.tick + 1;
        match self.hashed.remove(&step) {
            Some(slots) => {
                let ghost all = slots@;
                let mut current: Vec<T> = Vec::new();
                let mut reserved: Vec<Slot<T>> = Vec::new();
                for slot in it: slots.into_iter()
                    invariant
                        it.seq() == all,
                        current@ == ready_of(all.take(it.index() as int)),
                        reserved@ == later_of(all.take(it.index() as int)),
                {
                    proof {
                        let n = it.index() as int;
                        assert(all.take(n + 1).drop_last() == all.take(n));
                    }
                    if slot.round == 0 {
                        current.push(slot.t);
                    } else {
                        reserved.push(Slot { t: slot.t, round: slot.round - 1 });
                    }
                }
                proof {
                    assert(all.take(all.len() as int) == all);
                }
                self.hashed.insert(step, reserved);
                Some(current)
            },
            None => None,
        }
    }
}

} // verus!
