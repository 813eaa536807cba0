//! The fetch coordinator: given a resource key and the caller's fetch slot,
//! produce the cached bytes on disk and signal exactly one completion, while
//! keeping at most one fetch in flight per slot and bounding retries.
//!
//! The network call itself is an outside collaborator. The coordinator is a
//! state machine: `plan_display` decides between the cache-hit fast path and
//! spawning a task; `begin` acquires the slot; `on_fetch_result` takes one
//! attempt's outcome and decides whether to retry, finish with the bytes
//! cached and the notification sent, or give up silently after the retry
//! bound. `run_fetch` drives one whole invocation over a recorded sequence
//! of outcomes, and `take_notification` is the consumer side of the signal.
//!
//! Two choices are fixed here uniformly. Every image category follows the
//! same policy — a cache pre-check, then up to `MAX_ATTEMPTS` tries, then
//! silence. And slots stay per display element, one caller-owned token
//! each, rather than one global table keyed by resource: two elements may
//! fetch the same identifier concurrently, which is harmless since they
//! write the same path, while each element's own fetches serialize on its
//! slot.

use vstd::prelude::*;
use crate::key::{ResourceKey, ResourceKind, spec_file_name, spec_path};
use crate::store::{CacheStore, WritePlan};
use crate::channel::{NotifyChannel, notify_pending};

verus! {

/// The retry bound: one coordinator invocation calls the fetcher at most
/// this many times.
pub const MAX_ATTEMPTS: u8 = 3;

/// How one network attempt ended: the raw image bytes, or a transient
/// failure.
pub enum FetchOutcome {
    Success(Vec<u8>),
    Failure,
}

/// The bytes an attempt delivered, if it succeeded.
pub open spec fn spec_outcome_bytes(o: FetchOutcome) -> Seq<u8> {
    o->Success_0@
}

/// How a finished invocation ended: the bytes were cached and the
/// notification sent, or every attempt failed and the task ended silently.
#[derive(Clone, Copy, PartialEq, Eq, Structural, Debug)]
pub enum Completion {
    Cached,
    Exhausted,
}

/// Where a fetch task stands.
#[derive(Clone, Copy, PartialEq, Eq, Structural, Debug)]
pub enum TaskState {
    /// Created, not yet holding the slot.
    Pending,
    /// Holding the slot; the fetcher must be called and the outcome
    /// reported.
    Fetching,
    /// Finished; the slot is released.
    Done(Completion),
}

/// The mutual-exclusion token for one fetch slot. It models the shared
/// mutex a caller owns per display element: while held, no other
/// coordinated fetch for the same slot proceeds.
pub struct FetchSlot {
    held: bool,
}

impl FetchSlot {
    /// Whether some task currently holds the slot.
    pub closed spec fn is_held(&self) -> bool {
        self.held
    }

    /// A fresh, free slot.
    pub fn new() -> (s: FetchSlot)
        ensures
            !s.is_held(),
    {
        FetchSlot { held: false }
    }

    /// Takes the slot when it is free; otherwise leaves it as it is.
    pub fn try_acquire(&mut self) -> (ok: bool)
        ensures
            ok == !old(self).is_held(),
            ok ==> final(self).is_held(),
            !ok ==> *final(self) == *old(self),
    {
        if self.held {
            false
        } else {
            self.held = true;
            true
        }
    }

    /// Gives the slot back.
    pub fn release(&mut self)
        requires
            old(self).is_held(),
        ensures
            !final(self).is_held(),
    {
        self.held = false;
    }
}

/// One coordinator invocation for one key: the retry counter, the count of
/// fetcher calls whose outcome has been reported, and where it stands.
pub struct FetchTask {
    key: ResourceKey,
    state: TaskState,
    attempts: u8,
    calls_made: u8,
}

impl FetchTask {
    /// The key this invocation fetches.
    pub closed spec fn key(&self) -> ResourceKey {
        self.key
    }

    /// Where the task stands.
    pub closed spec fn state(&self) -> TaskState {
        self.state
    }

    /// Failed attempts so far, at most the retry bound.
    pub closed spec fn attempts(&self) -> u8 {
        self.attempts
    }

    /// Fetcher calls whose outcome the invocation has seen so far.
    pub closed spec fn calls_made(&self) -> u8 {
        self.calls_made
    }

    /// The counters agree with the state: a pending task has done nothing; a
    /// fetching task has seen one outcome per failed attempt, all under the
    /// bound; a cached task's last call succeeded; an exhausted task saw the
    /// bound's worth of failures and no more.
    pub closed spec fn wf(&self) -> bool {
        match self.state {
            TaskState::Pending => self.attempts == 0 && self.calls_made == 0,
            TaskState::Fetching => self.attempts < MAX_ATTEMPTS
                && self.calls_made == self.attempts,
            TaskState::Done(Completion::Cached) => self.attempts < MAX_ATTEMPTS
                && self.calls_made == self.attempts + 1,
            TaskState::Done(Completion::Exhausted) => self.attempts == MAX_ATTEMPTS
                && self.calls_made == MAX_ATTEMPTS,
        }
    }

    /// A fresh task for one key.
    pub fn new(key: ResourceKey) -> (t: FetchTask)
        ensures
            t.wf(),
            t.key() == key,
            t.state() is Pending,
            t.attempts() == 0,
            t.calls_made() == 0,
    {
        FetchTask { key, state: TaskState::Pending, attempts: 0, calls_made: 0 }
    }

    /// Whether the task is mid-invocation, holding the slot.
    pub fn is_fetching(&self) -> (b: bool)
        ensures
            b == (self.state() is Fetching),
    {
        match self.state {
            TaskState::Fetching => true,
            _ => false,
        }
    }

    /// The completion of a finished task.
    pub fn completion(&self) -> (c: Option<Completion>)
        ensures
            match c {
                Some(cc) => self.state() == TaskState::Done(cc),
                None => !(self.state() is Done),
            },
    {
        match self.state {
            TaskState::Done(c) => Some(c),
            _ => None,
        }
    }

    /// How often the fetcher was called for this invocation.
    pub fn calls(&self) -> (n: u8)
        ensures
            n == self.calls_made(),
    {
        self.calls_made
    }

    /// Tries to start fetching: the task enters `Fetching` exactly when the
    /// slot was free, and then holds it.
    pub fn begin(&mut self, slot: &mut FetchSlot) -> (started: bool)
        requires
            old(self).wf(),
            old(self).state() is Pending,
        ensures
            final(self).wf(),
            begin_step(*old(slot), *old(self), *final(slot), *final(self), started),
    {
        let ok = slot.try_acquire();
        if ok {
            self.state = TaskState::Fetching;
        }
        ok
    }

    /// Takes the outcome of one fetcher call and decides what follows: on
    /// success the bytes go into the store, the identifier is posted on the
    /// channel — exactly once — and the slot is released; on failure the
    /// task retries until the bound is reached, then gives up silently,
    /// leaving store and channel untouched. The returned plan, when there is
    /// one, is the store write for the surrounding program to mirror.
    pub fn on_fetch_result(
        &mut self,
        slot: &mut FetchSlot,
        store: &mut CacheStore,
        chan: &mut NotifyChannel,
        outcome: FetchOutcome,
    ) -> (plan: Option<WritePlan>)
        requires
            old(self).wf(),
            old(self).state() is Fetching,
            old(slot).is_held(),
            old(store).wf(),
            notify_pending(*old(chan)).len() == 0,
        ensures
            final(self).wf(),
            final(store).wf(),
            final(store).root() == old(store).root(),
            result_step(*old(slot), *old(self), *final(slot), *final(self),
                outcome is Success),
            match outcome {
                FetchOutcome::Success(bytes) => {
                    &&& final(store)@ == old(store)@.insert(
                        spec_file_name(old(self).key().kind, old(self).key().id@), bytes@)
                    &&& final(store).root_present()
                    &&& notify_pending(*final(chan)) == seq![old(self).key().id@]
                    &&& (plan matches Some(p)
                        && p.created_root == !old(store).root_present()
                        && p.path@ == spec_path(old(store).root(), old(self).key().kind,
                            old(self).key().id@))
                },
                FetchOutcome::Failure => {
                    &&& *final(store) == *old(store)
                    &&& *final(chan) == *old(chan)
                    &&& plan is None
                },
            },
    {
        self.calls_made = self.calls_made + 1;
        match outcome {
            FetchOutcome::Success(bytes) => {
                let plan = store.write(&self.key, &bytes);
                let _sent = chan.try_send(&self.key.id);
                proof {
                    assert(notify_pending(*chan) =~= seq![self.key.id@]);
                }
                self.state = TaskState::Done(Completion::Cached);
                slot.release();
                Some(plan)
            },
            FetchOutcome::Failure => {
                self.attempts = self.attempts + 1;
                if self.attempts == MAX_ATTEMPTS {
                    self.state = TaskState::Done(Completion::Exhausted);
                    slot.release();
                }
                None
            },
        }
    }
}

/// The slot/task effect of `begin`: a task starts fetching exactly when the
/// slot was free, and then holds it; a refused task and its slot are
/// unchanged.
pub open spec fn begin_step(
    s0: FetchSlot,
    t0: FetchTask,
    s1: FetchSlot,
    t1: FetchTask,
    started: bool,
) -> bool {
    &&& t0.state() is Pending
    &&& started == !s0.is_held()
    &&& t1.key() == t0.key()
    &&& t1.attempts() == t0.attempts()
    &&& t1.calls_made() == t0.calls_made()
    &&& (started ==> t1.state() is Fetching && s1.is_held())
    &&& (!started ==> t1 == t0 && s1 == s0)
}

/// The slot/task effect of `on_fetch_result`: one more call is accounted
/// for; success finishes the task and frees the slot; failure either keeps
/// the task fetching with the slot held, or — once the retry bound is
/// reached — finishes it exhausted and frees the slot.
pub open spec fn result_step(
    s0: FetchSlot,
    t0: FetchTask,
    s1: FetchSlot,
    t1: FetchTask,
    success: bool,
) -> bool {
    &&& t0.state() is Fetching
    &&& s0.is_held()
    &&& t1.key() == t0.key()
    &&& t1.calls_made() == t0.calls_made() + 1
    &&& (success ==> t1.state() == TaskState::Done(Completion::Cached)
        && t1.attempts() == t0.attempts()
        && !s1.is_held())
    &&& (!success ==> t1.attempts() == t0.attempts() + 1
        && (t0.attempts() + 1 < MAX_ATTEMPTS ==> t1.state() is Fetching && s1.is_held())
        && (t0.attempts() + 1 >= MAX_ATTEMPTS
            ==> t1.state() == TaskState::Done(Completion::Exhausted) && !s1.is_held()))
}

/// The serialization invariant for two tasks sharing one slot: a fetching
/// task holds the slot, and at most one of the two is fetching.
pub open spec fn slot_exclusive(s: FetchSlot, t1: FetchTask, t2: FetchTask) -> bool {
    &&& (t1.state() is Fetching ==> s.is_held())
    &&& (t2.state() is Fetching ==> s.is_held())
    &&& !(t1.state() is Fetching && t2.state() is Fetching)
}

/// The invariant is symmetric in the two tasks.
pub proof fn lemma_exclusive_symmetric(s: FetchSlot, t1: FetchTask, t2: FetchTask)
    requires
        slot_exclusive(s, t1, t2),
    ensures
        slot_exclusive(s, t2, t1),
{
}

/// Two fresh tasks over a fresh slot satisfy the invariant.
pub proof fn lemma_exclusive_init(s: FetchSlot, t1: FetchTask, t2: FetchTask)
    requires
        !s.is_held(),
        t1.state() is Pending,
        t2.state() is Pending,
    ensures
        slot_exclusive(s, t1, t2),
{
}

/// Serialization: while one task of a shared slot is fetching, the other
/// cannot begin — its network call does not start until the first releases
/// the slot.
pub proof fn lemma_fetch_serialized(
    s0: FetchSlot,
    t1: FetchTask,
    t2: FetchTask,
    s1: FetchSlot,
    t2b: FetchTask,
    started: bool,
)
    requires
        slot_exclusive(s0, t1, t2),
        t1.state() is Fetching,
        begin_step(s0, t2, s1, t2b, started),
    ensures
        !started,
        !(t2b.state() is Fetching),
{
}

/// The invariant is preserved when one of the two tasks tries to begin.
pub proof fn lemma_exclusive_begin(
    s0: FetchSlot,
    t1: FetchTask,
    t2: FetchTask,
    s1: FetchSlot,
    t2b: FetchTask,
    started: bool,
)
    requires
        slot_exclusive(s0, t1, t2),
        begin_step(s0, t2, s1, t2b, started),
    ensures
        slot_exclusive(s1, t1, t2b),
{
}

/// The invariant is preserved when one of the two tasks takes an outcome.
pub proof fn lemma_exclusive_result(
    s0: FetchSlot,
    t1: FetchTask,
    t2: FetchTask,
    s1: FetchSlot,
    t2b: FetchTask,
    success: bool,
)
    requires
        slot_exclusive(s0, t1, t2),
        result_step(s0, t2, s1, t2b, success),
    ensures
        slot_exclusive(s1, t1, t2b),
{
}

/// How a display request for a key is to be served.
pub enum DisplayPlan {
    /// The file is already cached: display from this path; no fetch begins
    /// and the fetcher is never called.
    AlreadyCached(String),
    /// Not cached yet: hand the invocation to the background pool.
    NeedsFetch(FetchTask),
}

/// The fast path of a display request: a key whose file is already in the
/// cache is served synchronously from its path and no task is created; any
/// other key gets a fresh fetch task.
pub fn plan_display(store: &CacheStore, key: ResourceKey) -> (p: DisplayPlan)
    requires
        store.wf(),
    ensures
        store@.dom().contains(spec_file_name(key.kind, key.id@)) ==> (p matches
            DisplayPlan::AlreadyCached(path)
            && path@ == spec_path(store.root(), key.kind, key.id@)),
        !store@.dom().contains(spec_file_name(key.kind, key.id@)) ==> (p matches
            DisplayPlan::NeedsFetch(t)
            && t.wf()
            && t.state() is Pending
            && t.key() == key
            && t.calls_made() == 0),
{
    if store.contains(&key) {
        DisplayPlan::AlreadyCached(store.path_for(&key))
    } else {
        DisplayPlan::NeedsFetch(FetchTask::new(key))
    }
}

/// The position of the first success among the attempts one invocation can
/// make, if the first three outcomes hold one.
pub open spec fn spec_first_success(outs: Seq<FetchOutcome>) -> Option<int>
    recommends
        outs.len() >= MAX_ATTEMPTS,
{
    if outs[0] is Success {
        Some(0int)
    } else if outs[1] is Success {
        Some(1int)
    } else if outs[2] is Success {
        Some(2int)
    } else {
        None
    }
}

/// Drives one whole coordinator invocation for a task against a recorded
/// sequence of attempt outcomes, consuming one outcome per fetcher call.
///
/// Its contract gathers the pipeline's laws: the fetcher is called until
/// the first success and never more than the retry bound; on success the
/// bytes of exactly that attempt are cached and the notification fires
/// exactly once with the key's identifier; when every allowed attempt
/// fails, the invocation makes exactly the bound's worth of calls, caches
/// nothing, and notifies nobody.
pub fn run_fetch(
    task: FetchTask,
    slot: &mut FetchSlot,
    store: &mut CacheStore,
    chan: &mut NotifyChannel,
    outcomes: Vec<FetchOutcome>,
) -> (t: FetchTask)
    requires
        task.wf(),
        task.state() is Pending,
        !old(slot).is_held(),
        old(store).wf(),
        notify_pending(*old(chan)).len() == 0,
        outcomes@.len() >= MAX_ATTEMPTS,
    ensures
        t.wf(),
        t.key() == task.key(),
        !final(slot).is_held(),
        final(store).wf(),
        final(store).root() == old(store).root(),
        match spec_first_success(outcomes@) {
            Some(i) => {
                &&& t.state() == TaskState::Done(Completion::Cached)
                &&& t.calls_made() == i + 1
                &&& final(store)@ == old(store)@.insert(
                    spec_file_name(task.key().kind, task.key().id@),
                    spec_outcome_bytes(outcomes@[i]))
                &&& final(store).root_present()
                &&& notify_pending(*final(chan)) == seq![task.key().id@]
            },
            None => {
                &&& t.state() == TaskState::Done(Completion::Exhausted)
                &&& t.calls_made() == MAX_ATTEMPTS
                &&& *final(store) == *old(store)
                &&& *final(chan) == *old(chan)
            },
        },
{
    let ghost outs = outcomes@;
    let ghost key0 = task.key();
    let ghost store0 = *store;
    let ghost chan0 = *chan;
    let mut t = task;
    let mut outcomes = outcomes;
    let _started = t.begin(slot);
    while t.is_fetching()
        invariant
            t.wf(),
            t.key() == key0,
            store.wf(),
            store.root() == store0.root(),
            store0.wf(),
            notify_pending(chan0).len() == 0,
            outs.len() >= MAX_ATTEMPTS,
            t.state() is Fetching || t.state() is Done,
            t.state() is Fetching ==> {
                &&& slot.is_held()
                &&& t.calls_made() < MAX_ATTEMPTS
                &&& outcomes@ == outs.skip(t.calls_made() as int)
                &&& (forall|m: int| 0 <= m < t.calls_made() ==> !(outs[m] is Success))
                &&& *store == store0
                &&& *chan == chan0
            },
            t.state() == TaskState::Done(Completion::Cached) ==> {
                &&& !slot.is_held()
                &&& 1 <= t.calls_made() <= MAX_ATTEMPTS
                &&& outs[t.calls_made() - 1] is Success
                &&& (forall|m: int| 0 <= m < t.calls_made() - 1 ==> !(outs[m] is Success))
                &&& store@ == store0@.insert(
                    spec_file_name(key0.kind, key0.id@),
                    spec_outcome_bytes(outs[t.calls_made() - 1]))
                &&& store.root_present()
                &&& notify_pending(*chan) == seq![key0.id@]
            },
            t.state() == TaskState::Done(Completion::Exhausted) ==> {
                &&& !slot.is_held()
                &&& t.calls_made() == MAX_ATTEMPTS
                &&& (forall|m: int| 0 <= m < MAX_ATTEMPTS ==> !(outs[m] is Success))
                &&& *store == store0
                &&& *chan == chan0
            },
        decreases MAX_ATTEMPTS - t.calls_made(),
    {
        let outcome = outcomes.remove(0);
        let ghost k = t.calls_made() as int;
        proof {
            assert(outs.skip(k)[0] == outs[k]);
        }
        let _plan = t.on_fetch_result(slot, store, chan, outcome);
        proof {
            assert(outcomes@ =~= outs.skip(k + 1));
        }
    }
    proof {
        if t.state() == TaskState::Done(Completion::Cached) {
            let k = t.calls_made() as int;
            assert(spec_first_success(outs) == Some(k - 1));
        } else {
            assert(spec_first_success(outs) is None);
        }
    }
    t
}

/// The consumer side of one display element: drains the pending
/// notification, if there is one, and re-derives the cache path of the
/// finished resource from the identifier it carries.
pub fn take_notification(
    chan: &mut NotifyChannel,
    store: &CacheStore,
    kind: ResourceKind,
) -> (r: Option<String>)
    ensures
        notify_pending(*old(chan)).len() == 0 ==> r is None
            && notify_pending(*final(chan)) == notify_pending(*old(chan)),
        notify_pending(*old(chan)).len() > 0 ==> (r matches Some(p)
            && p@ == spec_path(store.root(), kind, notify_pending(*old(chan))[0])
            && notify_pending(*final(chan)) == notify_pending(*old(chan)).drop_first()),
{
    match chan.try_recv() {
        Some(id) => Some(store.path_for(&ResourceKey::new(kind, id))),
        None => None,
    }
}

} // verus!
