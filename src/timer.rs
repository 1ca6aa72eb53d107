//! Coarse timeouts driven by a hashed timer wheel that is ticked once a second.
use crate::timerwheel::{ready_of, scheduled, TimeWheel};
use std::collections::HashSet;
use vstd::prelude::*;
use vstd::std_specs::hash::*;

verus! {

broadcast use group_hash_axioms;

/// Number of slots of the wheel: one hour at one tick per second.
pub const WHEEL_STEPS: u64 = 3600;

/// Handle on one timer created by a `TimerExecutor`.
pub struct Timeout {
    timer_id: usize,
}

impl Timeout {
    pub closed spec fn spec_id(&self) -> usize {
        self.timer_id
    }

    /// The id of the timer.
    pub fn id(&self) -> (r: usize)
        ensures
            r == self.spec_id(),
    {
        self.timer_id
    }
}

/// The timers that fire at the next tick of `w`, in order.
pub open spec fn due_at_next_tick(w: TimeWheel<usize>) -> Seq<usize> {
    let k = (w.spec_tick() % w.spec_steps()) as u64;
    if w.spec_slots().contains_key(k) {
        ready_of(w.spec_slots()[k]@)
    } else {
        Seq::empty()
    }
}

pub struct TimerExecutor {
    timer_id_seq: usize,
    wheel: TimeWheel<usize>,
    waiting: HashSet<usize>,
    fired: HashSet<usize>,
}

impl TimerExecutor {
    /// The id of the last timer created (zero before the first).
    pub closed spec fn spec_last_id(&self) -> usize {
        self.timer_id_seq
    }

    pub closed spec fn spec_wheel(&self) -> TimeWheel<usize> {
        self.wheel
    }

    /// Timers whose owner looked before they fired and waits to be woken.
    pub closed spec fn spec_waiting(&self) -> Set<usize> {
        self.waiting@
    }

    /// Timers that fired and whose owner has not looked since.
    pub closed spec fn spec_fired(&self) -> Set<usize> {
        self.fired@
    }

    pub open spec fn wf(&self) -> bool {
        self.spec_wheel().wf()
    }

    /// An executor at tick zero with no timers.
    pub fn new() -> (r: Self)
        ensures
            r.wf(),
            r.spec_last_id() == 0,
            r.spec_wheel().spec_steps() == WHEEL_STEPS,
            r.spec_wheel().spec_tick() == 0,
            r.spec_wheel().spec_slots().is_empty(),
            r.spec_waiting().is_empty(),
            r.spec_fired().is_empty(),
    {
        TimerExecutor {
            timer_id_seq: 0,
            wheel: TimeWheel::new(WHEEL_STEPS),
            waiting: HashSet::new(),
            fired: HashSet::new(),
        }
    }

    /// The id of the last timer created.
    pub fn last_id(&self) -> (r: usize)
        ensures
            r == self.spec_last_id(),
    {
        self.timer_id_seq
    }

    /// Number of ticks made so far.
    pub fn now(&self) -> (r: u64)
        ensures
            r == self.spec_wheel().spec_tick(),
    {
        self.wheel.now()
    }

    /// Creates a timer that fires `secs` ticks from now and returns its id,
    /// one more than the last id handed out.
    pub fn create_timer(&mut self, secs: u64) -> (r: usize)
        requires
            old(self).wf(),
            old(self).spec_last_id() < usize::MAX,
            old(self).spec_wheel().spec_tick() + secs <= u64::MAX,
        ensures
            final(self).wf(),
            r == old(self).spec_last_id() + 1,
            final(self).spec_last_id() == r,
            scheduled(old(self).spec_wheel(), final(self).spec_wheel(), secs, r),
            final(self).spec_waiting() == old(self).spec_waiting(),
            final(self).spec_fired() == old(self).spec_fired(),
    {
        self.timer_id_seq = self.timer_id_seq + 1;
        let timer = self.timer_id_seq;
        self.wheel.add(secs, timer);
        timer
    }

    /// Creates a timeout that fires after `secs` seconds.
    pub fn timeout(&mut self, secs: u64) -> (r: Timeout)
        requires
            old(self).wf(),
            old(self).spec_last_id() < usize::MAX,
            old(self).spec_wheel().spec_tick() + secs <= u64::MAX,
        ensures
            final(self).wf(),
            r.spec_id() == old(self).spec_last_id() + 1,
            final(self).spec_last_id() == r.spec_id(),
            scheduled(old(self).spec_wheel(), final(self).spec_wheel(), secs, r.spec_id()),
            final(self).spec_waiting() == old(self).spec_waiting(),
            final(self).spec_fired() == old(self).spec_fired(),
    {
        let timer_id = self.create_timer(secs);
        Timeout { timer_id }
    }

    /// Whether `timer` has fired. If it has, that is reported once and
    /// forgotten; if not, its owner is recorded as waiting to be woken.
    pub fn poll(&mut self, timer: usize) -> (ready: bool)
        requires
            old(self).wf(),
        ensures
            final(self).wf(),
            ready == old(self).spec_fired().contains(timer),
            final(self).spec_fired() == old(self).spec_fired().remove(timer),
            final(self).spec_waiting() == (if ready {
                old(self).spec_waiting()
            } else {
                old(self).spec_waiting().insert(timer)
            }),
            final(self).spec_wheel() == old(self).spec_wheel(),
            final(self).spec_last_id() == old(self).spec_last_id(),
    {
        if self.fired.remove(&timer) {
            true
        } else {
            self.waiting.insert(timer);
            false
        }
    }

    /// Advances the wheel by one tick. Every timer that fires is marked as
    /// fired; those whose owner waits are returned, to be woken, and no
    /// longer wait.
    pub fn tick(&mut self) -> (woken: Vec<usize>)
        requires
            old(self).wf(),
            old(self).spec_wheel().spec_tick() < u64::MAX,
        ensures
            final(self).wf(),
            final(self).spec_wheel().spec_tick() == old(self).spec_wheel().spec_tick() + 1,
            final(self).spec_last_id() == old(self).spec_last_id(),
            ({
                let due = due_at_next_tick(old(self).spec_wheel()).to_set();
                &&& final(self).spec_fired() == old(self).spec_fired().union(due)
                &&& final(self).spec_waiting() == old(self).spec_waiting().difference(due)
                &&& woken@.to_set() == old(self).spec_waiting().intersect(due)
            }),
    {
        let ghost due = due_at_next_tick(self.wheel);
        let ghost fired0 = self.fired@;
        let ghost waiting0 = self.waiting@;
        let mut woken: Vec<usize> = Vec::new();
        if let Some(timers) = self.wheel.tick() {
            for timer in it: timers.into_iter()
                invariant
                    it.seq() == due,
                    self.wheel.wf(),
                    self.wheel.spec_tick() == old(self).spec_wheel().spec_tick() + 1,
                    self.timer_id_seq == old(self).spec_last_id(),
                    self.fired@ == fired0.union(due.take(it.index() as int).to_set()),
                    self.waiting@ == waiting0.difference(due.take(it.index() as int).to_set()),
                    woken@.to_set() == waiting0.intersect(due.take(it.index() as int).to_set()),
            {
                proof {
                    let n = it.index() as int;
                    due.lemma_take_succ_push(n);
                    due.take(n).lemma_push_to_set_commute(due[n]);
                    woken@.lemma_push_to_set_commute(due[n]);
                }
                self.fired.insert(timer);
                if self.waiting.remove(&timer) {
                    woken.push(timer);
                }
                assert(self.fired@ =~= fired0.union(due.take(it.index() + 1).to_set()));
                assert(self.waiting@ =~= waiting0.difference(due.take(it.index() + 1).to_set()));
                assert(woken@.to_set() =~= waiting0.intersect(due.take(it.index() + 1).to_set()));
            }
            proof {
                due.lemma_take_len();
            }
        } else {
            assert(due.to_set() =~= Set::<usize>::empty());
            assert(self.fired@ =~= fired0.union(due.to_set()));
            assert(self.waiting@ =~= waiting0.difference(due.to_set()));
            assert(woken@.to_set() =~= waiting0.intersect(due.to_set()));
        }
        woken
    }
}

} // verus!
