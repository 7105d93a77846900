//! A lock-guarded shared counter incremented once per worker.
//!
//! The counter is modelled as the integer behind the lock together with a
//! poison flag: when a holder terminates abnormally while holding the lock,
//! the lock is poisoned and every later acquisition fails fatally instead of
//! handing out a possibly corrupt value.

use vstd::prelude::*;

use crate::schedule::{
    lemma_partial_prefix, lemma_run_model, run_model, step_model, valid_schedule,
};

verus! {

/// The demo's single fatal error: the lock is unavailable because a previous
/// holder terminated abnormally while holding it.
#[derive(Debug, Clone, Copy, PartialEq, Eq)]
pub enum CounterError {
    Poisoned,
}

/// A shared integer counter guarded by a mutual-exclusion lock.
///
/// `value` is the integer behind the lock; `poisoned` records whether some
/// holder terminated abnormally while holding the lock. Every operation that
/// touches `value` first acquires the lock, so each read-modify-write is a
/// single critical section and no reader can observe a partial update.
pub struct SharedCounter {
    value: u64,
    poisoned: bool,
}

impl SharedCounter {
    /// The integer currently stored behind the lock.
    pub closed spec fn spec_value(self) -> u64 {
        self.value
    }

    /// Whether the lock has been poisoned by a holder that terminated
    /// abnormally.
    pub closed spec fn is_poisoned(self) -> bool {
        self.poisoned
    }

    /// Create the shared counter, zero-initialized, with a healthy lock.
    pub fn new() -> (c: SharedCounter)
        ensures
            c.spec_value() == 0,
            !c.is_poisoned(),
    {
        SharedCounter { value: 0, poisoned: false }
    }

    /// Acquire the lock, add one to the counter, release the lock.
    ///
    /// Acquisition fails fatally on a poisoned lock, leaving the counter
    /// untouched; otherwise exactly one increment is applied.
    pub fn increment(&mut self) -> (r: Result<(), CounterError>)
        requires
            !old(self).is_poisoned() ==> old(self).spec_value() < u64::MAX,
        ensures
            old(self).is_poisoned() ==> r == Err::<(), CounterError>(CounterError::Poisoned)
                && *final(self) == *old(self),
            !old(self).is_poisoned() ==> r == Ok::<(), CounterError>(())
                && !final(self).is_poisoned()
                && final(self).spec_value() == old(self).spec_value() + 1,
    {
        if self.poisoned {
            Err(CounterError::Poisoned)
        } else {
            self.value = self.value + 1;
            Ok(())
        }
    }

    /// Acquire the lock, copy the value, release the lock.
    ///
    /// Acquisition fails fatally on a poisoned lock; otherwise the copied
    /// value is returned and the counter is unchanged.
    pub fn read_counter(&self) -> (r: Result<u64, CounterError>)
        ensures
            self.is_poisoned() ==> r == Err::<u64, CounterError>(CounterError::Poisoned),
            !self.is_poisoned() ==> r == Ok::<u64, CounterError>(self.spec_value()),
    {
        if self.poisoned {
            Err(CounterError::Poisoned)
        } else {
            Ok(self.value)
        }
    }

    /// Record that the current lock holder terminated abnormally while
    /// holding the lock: the lock is poisoned and stays poisoned, and the
    /// stored value is not touched.
    pub fn poison(&mut self)
        ensures
            final(self).is_poisoned(),
            final(self).spec_value() == old(self).spec_value(),
    {
        self.poisoned = true;
    }
}

/// The lifecycle of one worker, as observed through its handle.
///
/// On the normal path a worker has exactly two states, `Pending` before its
/// single increment and `Done` after it; the transition happens atomically
/// inside the locked section. `Failed` records the one abnormal outcome:
/// the worker terminated without completing its increment, either because it
/// died while holding the lock or because it found the lock already poisoned.
#[derive(Debug, Clone, Copy, PartialEq, Eq)]
pub enum WorkerState {
    Pending,
    Done,
    Failed,
}

/// An ordered collection of worker handles, used only to wait until every
/// worker has terminated. Created empty, populated as workers are spawned,
/// and drained during the wait phase.
pub struct JoinSet {
    handles: Vec<WorkerState>,
}

impl View for JoinSet {
    type V = Seq<WorkerState>;

    closed spec fn view(&self) -> Seq<WorkerState> {
        self.handles@
    }
}

impl JoinSet {
    /// Create an empty set of handles.
    pub fn new() -> (s: JoinSet)
        ensures
            s@ =~= Seq::<WorkerState>::empty(),
    {
        JoinSet { handles: Vec::new() }
    }

    /// How many workers have been spawned into this set.
    pub fn len(&self) -> (n: usize)
        ensures
            n == self@.len(),
    {
        self.handles.len()
    }

    /// Start a worker on the shared counter: a new handle is appended in the
    /// `Pending` state. The worker's single increment is performed later,
    /// at whatever point the scheduler runs it (see [`JoinSet::run_worker`]).
    pub fn spawn_worker(&mut self)
        ensures
            final(self)@ =~= old(self)@.push(WorkerState::Pending),
    {
        self.handles.push(WorkerState::Pending);
    }

    /// Let the pending worker `i` run to completion: it acquires the lock,
    /// adds one, and releases the lock, after which its handle is `Done`.
    ///
    /// `inject_fault` simulates the worker terminating abnormally while
    /// holding the lock: the lock is left poisoned, the increment is not
    /// applied, and the handle is `Failed`. A worker that finds the lock
    /// already poisoned fails fatally without touching the counter.
    pub fn run_worker(&mut self, i: usize, counter: &mut SharedCounter, inject_fault: bool)
        requires
            i < old(self)@.len(),
            old(self)@[i as int] is Pending,
            !old(counter).is_poisoned() ==> old(counter).spec_value() < u64::MAX,
        ensures
            final(self)@.len() == old(self)@.len(),
            forall|j: int| 0 <= j < old(self)@.len() && j != i ==> final(self)@[j] == old(self)@[j],
            old(counter).is_poisoned() ==> final(self)@[i as int] is Failed
                && *final(counter) == *old(counter),
            !old(counter).is_poisoned() && inject_fault ==> final(self)@[i as int] is Failed
                && final(counter).is_poisoned()
                && final(counter).spec_value() == old(counter).spec_value(),
            !old(counter).is_poisoned() && !inject_fault ==> final(self)@[i as int] is Done
                && !final(counter).is_poisoned()
                && final(counter).spec_value() == old(counter).spec_value() + 1,
    {
        let st: WorkerState = if inject_fault {
            // The worker acquires the lock (or finds it poisoned) and
            // terminates abnormally before releasing it.
            counter.poison();
            WorkerState::Failed
        } else {
            match counter.increment() {
                Ok(()) => WorkerState::Done,
                Err(CounterError::Poisoned) => WorkerState::Failed,
            }
        };
        self.handles.set(i, st);
    }

    /// Block until every spawned worker has terminated, draining the set.
    ///
    /// The demo assumes that every worker completes, so no handle may still
    /// be `Pending`. The wait succeeds exactly when every worker completed
    /// normally; if any worker terminated abnormally the failure surfaces as
    /// the demo's single fatal error. An empty set returns immediately.
    pub fn await_all(&mut self) -> (r: Result<(), CounterError>)
        requires
            forall|j: int| 0 <= j < old(self)@.len() ==> !(old(self)@[j] is Pending),
        ensures
            final(self)@.len() == 0,
            r == Ok::<(), CounterError>(()) <==> (forall|j: int|
                0 <= j < old(self)@.len() ==> old(self)@[j] is Done),
            r is Err ==> r == Err::<(), CounterError>(CounterError::Poisoned),
    {
        let ghost all = self.handles@;
        let mut all_done = true;
        let mut k: usize = 0;
        while k < self.handles.len()
            invariant
                self@ =~= all,
                k <= all.len(),
                all_done <==> (forall|j: int| 0 <= j < k ==> all[j] is Done),
            decreases all.len() - k,
        {
            match self.handles[k] {
                WorkerState::Done => (),
                WorkerState::Pending | WorkerState::Failed => {
                    all_done = false;
                },
            }
            k += 1;
        }
        self.handles.clear();
        if all_done {
            Ok(())
        } else {
            Err(CounterError::Poisoned)
        }
    }
}

/// Run the whole demo for `n` workers: create the counter, spawn the `n`
/// workers, let each perform its single increment in the order given by the
/// schedule, wait for all of them, and read the final value.
///
/// `order` stands for the scheduler's choice: the sequence of worker
/// identifiers in the order in which they get to run their critical
/// section. Whatever complete schedule the scheduler picks, the demo
/// returns exactly `n`.
pub fn run_demo(n: usize, order: &Vec<usize>) -> (r: Result<u64, CounterError>)
    requires
        valid_schedule(n as nat, order@),
    ensures
        r == Ok::<u64, CounterError>(n as u64),
{
    let mut counter = SharedCounter::new();
    let mut workers = JoinSet::new();

    let mut i: usize = 0;
    while i < n
        invariant
            i <= n,
            workers@.len() == i,
            forall|j: int| 0 <= j < i ==> workers@[j] is Pending,
            counter.spec_value() == 0,
            !counter.is_poisoned(),
        decreases n - i,
    {
        workers.spawn_worker();
        i += 1;
    }

    let ghost gn = n as nat;
    let mut k: usize = 0;
    while k < n
        invariant
            valid_schedule(gn, order@),
            gn == n,
            k <= n,
            order@.len() == n,
            workers@.len() == n,
            !counter.is_poisoned(),
            counter.spec_value() == run_model(gn, order@.take(k as int)).value,
            forall|j: usize| j < n ==> ((workers@[j as int] is Done) <==> run_model(
                gn,
                order@.take(k as int),
            ).done[j as int]),
            forall|j: int| 0 <= j < n ==> !(workers@[j] is Failed),
        decreases n - k,
    {
        let ghost pre = order@.take(k as int);
        let id = order[k];
        proof {
            lemma_partial_prefix(gn, order@, k as int);
            lemma_run_model(gn, pre);
            // The worker scheduled now has not run in the first k steps:
            // no worker is scheduled twice.
            if pre.contains(id) {
                let m = choose|m: int| 0 <= m < pre.len() && pre[m] == id;
                assert(order@[m] == order@[k as int]);
            }
            assert(!run_model(gn, pre).done[id as int]);
            assert(counter.spec_value() < n <= u64::MAX);
        }
        workers.run_worker(id, &mut counter, false);
        proof {
            let post = order@.take(k as int + 1);
            assert(post.drop_last() =~= pre);
            assert(post.last() == id);
            assert(run_model(gn, post) == step_model(run_model(gn, pre), id as nat));
            assert(run_model(gn, post).done =~= run_model(gn, pre).done.update(
                id as int,
                true,
            ));
        }
        k += 1;
    }

    proof {
        assert(order@.take(n as int) =~= order@);
        lemma_run_model(gn, order@);
        // Every worker occurs in a complete schedule, so every worker is done.
        assert forall|j: int| 0 <= j < n implies workers@[j] is Done by {
            let ju = j as usize;
            assert(order@.contains(ju));
            assert(run_model(gn, order@).done[ju as int]);
            assert(workers@[ju as int] is Done);
        }
        assert(counter.spec_value() == n);
    }
    match workers.await_all() {
        Ok(()) => counter.read_counter(),
        Err(e) => Err(e),
    }
}

} // verus!
