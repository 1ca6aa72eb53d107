//! The completion registry: the table of in-flight calls keyed by id, with
//! at-most-once delivery, per-call timeouts and broadcast cancellation.
use std::collections::HashMap;
use vstd::prelude::*;
use vstd::std_specs::hash::*;

verus! {

broadcast use group_hash_axioms;

/// State of one pending call.
pub enum SlotState<Output> {
    Waiting,
    Ready(Output),
    Cancelled,
    TimedOut,
}

/// What the consumer of a pending call finds when it looks.
pub enum Completion<Output> {
    /// Nothing has arrived yet; the call stays registered.
    Pending,
    /// The call was completed with this output; its slot is released.
    Ready(Output),
    /// The call was cancelled by a broadcast cancel; its slot is released.
    Cancelled,
    /// The call's timer expired first; its slot is released.
    TimedOut,
    /// No call with this id is registered (never issued, or already taken).
    Unknown,
}

/// The consumer's handle on one pending call.
pub struct Joinable {
    pub id: usize,
}

/// Slots of a registry: id to state.
pub type Slots<Output> = Map<usize, SlotState<Output>>;

pub open spec fn is_waiting<Output>(m: Slots<Output>, id: usize) -> bool {
    m.contains_key(id) && m[id] is Waiting
}

/// The slots after a transition of `id` to `s`: only a waiting slot moves.
pub open spec fn settled<Output>(m: Slots<Output>, id: usize, s: SlotState<Output>) -> Slots<
    Output,
> {
    if is_waiting(m, id) {
        m.insert(id, s)
    } else {
        m
    }
}

/// The slots after a broadcast cancel: every waiting slot becomes cancelled.
pub open spec fn cancelled_all<Output>(m: Slots<Output>) -> Slots<Output> {
    Map::new(
        |k: usize| m.contains_key(k),
        |k: usize|
            if m[k] is Waiting {
                SlotState::Cancelled
            } else {
                m[k]
            },
    )
}

/// What a consumer that looks at `id` finds in `m`.
pub open spec fn completion_of<Output>(m: Slots<Output>, id: usize) -> Completion<Output> {
    if !m.contains_key(id) {
        Completion::Unknown
    } else {
        match m[id] {
            SlotState::Waiting => Completion::Pending,
            SlotState::Ready(o) => Completion::Ready(o),
            SlotState::Cancelled => Completion::Cancelled,
            SlotState::TimedOut => Completion::TimedOut,
        }
    }
}

/// The slots after a consumer looked at `id`: a slot that is no longer waiting
/// is released.
pub open spec fn taken<Output>(m: Slots<Output>, id: usize) -> Slots<Output> {
    if m.contains_key(id) && !(m[id] is Waiting) {
        m.remove(id)
    } else {
        m
    }
}

/// A call leaves the waiting state at most once: after a first transition
/// (completion, timeout or cancel), any further one leaves the slots unchanged.
pub proof fn lemma_complete_at_most_once<Output>(
    m: Slots<Output>,
    id: usize,
    first: SlotState<Output>,
    second: SlotState<Output>,
)
    requires
        !(first is Waiting),
    ensures
        !is_waiting(settled(m, id, first), id),
        settled(settled(m, id, first), id, second) == settled(m, id, first),
{
}

/// Cancelling everything is idempotent, and it settles every outstanding call
/// exactly once: each waiting call becomes cancelled, none stays waiting, and
/// a later completion of any id changes nothing.
pub proof fn lemma_cancel_all_idempotent<Output>(m: Slots<Output>)
    ensures
        cancelled_all(cancelled_all(m)) == cancelled_all(m),
        cancelled_all(m).dom() == m.dom(),
        forall|id: usize| is_waiting(m, id) ==> (#[trigger] cancelled_all(m)[id]) is Cancelled,
        forall|id: usize| !is_waiting(m, id) && m.contains_key(id) ==> #[trigger] cancelled_all(m)[id] == m[id],
        forall|id: usize| !#[trigger] is_waiting(cancelled_all(m), id),
        forall|id: usize, o: SlotState<Output>|
            #[trigger] settled(cancelled_all(m), id, o) == cancelled_all(m),
{
    assert(cancelled_all(cancelled_all(m)) =~= cancelled_all(m));
    assert(cancelled_all(m).dom() =~= m.dom());
}

pub struct CallbackPool<Output> {
    seq: usize,
    slots: HashMap<usize, SlotState<Output>>,
    timers: HashMap<usize, usize>,
}

impl<Output> Default for CallbackPool<Output> {
    fn default() -> (r: Self)
        ensures
            r.wf(),
            r.spec_seq() == 1,
            r.spec_slots() == Slots::<Output>::empty(),
            r.spec_timers() == Map::<usize, usize>::empty(),
    {
        CallbackPool::new()
    }
}

impl<Output> CallbackPool<Output> {
    /// The next id to hand out.
    pub closed spec fn spec_seq(&self) -> usize {
        self.seq
    }

    /// The registered calls.
    pub closed spec fn spec_slots(&self) -> Slots<Output> {
        self.slots@
    }

    /// Armed timers: timer id to the id of the call that it guards.
    pub closed spec fn spec_timers(&self) -> Map<usize, usize> {
        self.timers@
    }

    /// Ids start at one, and every registered id was handed out already.
    pub closed spec fn wf(&self) -> bool {
        &&& self.seq >= 1
        &&& forall|k: usize| #[trigger] self.slots@.contains_key(k) ==> 1 <= k < self.seq
    }

    /// An empty registry whose first id is 1.
    pub fn new() -> (r: Self)
        ensures
            r.wf(),
            r.spec_seq() == 1,
            r.spec_slots() == Slots::<Output>::empty(),
            r.spec_timers() == Map::<usize, usize>::empty(),
    {
        CallbackPool { seq: 1, slots: HashMap::new(), timers: HashMap::new() }
    }

    /// Every registered id lies below the next id, so the next id is fresh.
    pub proof fn lemma_ids_below_seq(&self)
        requires
            self.wf(),
        ensures
            forall|k: usize| #[trigger]
                self.spec_slots().contains_key(k) ==> 1 <= k < self.spec_seq(),
    {
    }

    /// The id that the next `join` hands out.
    pub fn next_id(&self) -> (r: usize)
        ensures
            r == self.spec_seq(),
    {
        self.seq
    }

    /// Allocates the next id and installs a waiting slot for it.
    pub fn join(&mut self) -> (r: Joinable)
        requires
            old(self).wf(),
            old(self).spec_seq() < usize::MAX,
        ensures
            final(self).wf(),
            r.id == old(self).spec_seq(),
            final(self).spec_seq() == old(self).spec_seq() + 1,
            !old(self).spec_slots().contains_key(r.id),
            final(self).spec_slots() == old(self).spec_slots().insert(r.id, SlotState::Waiting),
            final(self).spec_timers() == old(self).spec_timers(),
    {
        let id = self.seq;
        self.seq = self.seq + 1;
        self.slots.insert(id, SlotState::Waiting);
        Joinable { id }
    }

    /// As `join`, and arms `timer`: when it fires, the call times out.
    pub fn join_with_timer(&mut self, timer: usize) -> (r: Joinable)
        requires
            old(self).wf(),
            old(self).spec_seq() < usize::MAX,
        ensures
            final(self).wf(),
            r.id == old(self).spec_seq(),
            final(self).spec_seq() == old(self).spec_seq() + 1,
            !old(self).spec_slots().contains_key(r.id),
            final(self).spec_slots() == old(self).spec_slots().insert(r.id, SlotState::Waiting),
            final(self).spec_timers() == old(self).spec_timers().insert(timer, r.id),
    {
        let r = self.join();
        self.timers.insert(timer, r.id);
        r
    }

    /// Moves the slot of `id` to `s` if it is waiting; returns whether it did.
    fn settle(&mut self, id: usize, s: SlotState<Output>) -> (moved: bool)
        requires
            old(self).wf(),
        ensures
            final(self).wf(),
            moved == is_waiting(old(self).spec_slots(), id),
            final(self).spec_slots() == settled(old(self).spec_slots(), id, s),
            final(self).spec_seq() == old(self).spec_seq(),
            final(self).spec_timers() == old(self).spec_timers(),
    {
        let waiting = match self.slots.get(&id) {
            Some(SlotState::Waiting) => true,
            _ => false,
        };
        if waiting {
            self.slots.insert(id, s);
        }
        waiting
    }

    /// Delivers `output` to the call `id`. Only a waiting call takes it: the
    /// first completion wins, and any later one is dropped. Returns whether
    /// the output was delivered.
    pub fn complete(&mut self, id: usize, output: Output) -> (delivered: bool)
        requires
            old(self).wf(),
        ensures
            final(self).wf(),
            delivered == is_waiting(old(self).spec_slots(), id),
            final(self).spec_slots() == settled(
                old(self).spec_slots(),
                id,
                SlotState::Ready(output),
            ),
            final(self).spec_seq() == old(self).spec_seq(),
            final(self).spec_timers() == old(self).spec_timers(),
    {
        self.settle(id, SlotState::Ready(output))
    }

    /// Fails the call `id` with a timeout if it is still waiting.
    pub fn time_out(&mut self, id: usize) -> (moved: bool)
        requires
            old(self).wf(),
        ensures
            final(self).wf(),
            moved == is_waiting(old(self).spec_slots(), id),
            final(self).spec_slots() == settled(old(self).spec_slots(), id, SlotState::TimedOut),
            final(self).spec_seq() == old(self).spec_seq(),
            final(self).spec_timers() == old(self).spec_timers(),
    {
        self.settle(id, SlotState::TimedOut)
    }

    /// Routes the expiry of `timer` to the call that it guards, and disarms it.
    pub fn fire_timer(&mut self, timer: usize) -> (moved: bool)
        requires
            old(self).wf(),
        ensures
            final(self).wf(),
            final(self).spec_seq() == old(self).spec_seq(),
            final(self).spec_timers() == old(self).spec_timers().remove(timer),
            if old(self).spec_timers().contains_key(timer) {
                let id = old(self).spec_timers()[timer];
                &&& moved == is_waiting(old(self).spec_slots(), id)
                &&& final(self).spec_slots() == settled(
                    old(self).spec_slots(),
                    id,
                    SlotState::TimedOut,
                )
            } else {
                &&& !moved
                &&& final(self).spec_slots() == old(self).spec_slots()
            },
    {
        match self.timers.remove(&timer) {
            Some(id) => self.time_out(id),
            None => false,
        }
    }

    /// Cancels every waiting call. Calls that were already completed, timed
    /// out or cancelled keep their state.
    pub fn cancel_all(&mut self)
        requires
            old(self).wf(),
        ensures
            final(self).wf(),
            final(self).spec_slots() == cancelled_all(old(self).spec_slots()),
            final(self).spec_seq() == old(self).spec_seq(),
            final(self).spec_timers() == old(self).spec_timers(),
    {
        let ghost before = self.slots@;
        let mut k: usize = 1;
        while k < self.seq
            invariant
                self.wf(),
                1 <= k <= self.seq,
                self.seq == old(self).spec_seq(),
                self.timers@ == old(self).spec_timers(),
                before == old(self).spec_slots(),
                self.slots@.dom() == before.dom(),
                forall|j: usize| #[trigger]
                    self.slots@.contains_key(j) ==> self.slots@[j] == (if j < k {
                        cancelled_all(before)[j]
                    } else {
                        before[j]
                    }),
            decreases self.seq - k,
        {
            let waiting = match self.slots.get(&k) {
                Some(SlotState::Waiting) => true,
                _ => false,
            };
            if waiting {
                self.slots.insert(k, SlotState::Cancelled);
                assert(self.slots@.dom() =~= before.dom());
            }
            k = k + 1;
        }
        assert(self.slots@ =~= cancelled_all(before));
    }

    /// Looks at the call `id`: a call that is still waiting stays; one that
    /// reached a final state is released and its outcome returned.
    pub fn poll(&mut self, id: usize) -> (r: Completion<Output>)
        requires
            old(self).wf(),
        ensures
            final(self).wf(),
            r == completion_of(old(self).spec_slots(), id),
            final(self).spec_slots() == taken(old(self).spec_slots(), id),
            final(self).spec_seq() == old(self).spec_seq(),
            final(self).spec_timers() == old(self).spec_timers(),
    {
        let waiting = match self.slots.get(&id) {
            Some(SlotState::Waiting) => true,
            _ => false,
        };
        if waiting {
            return Completion::Pending;
        }
        match self.slots.remove(&id) {
            Some(SlotState::Ready(o)) => Completion::Ready(o),
            Some(SlotState::Cancelled) => Completion::Cancelled,
            Some(SlotState::TimedOut) => Completion::TimedOut,
            _ => Completion::Unknown,
        }
    }

    /// Releases the call `id` without delivering it to anyone: the consumer
    /// gave up on it, and any later completion is dropped.
    pub fn abandon(&mut self, id: usize)
        requires
            old(self).wf(),
        ensures
            final(self).wf(),
            final(self).spec_slots() == old(self).spec_slots().remove(id),
            final(self).spec_seq() == old(self).spec_seq(),
            final(self).spec_timers() == old(self).spec_timers(),
    {
        self.slots.remove(&id);
    }
}

} // verus!
