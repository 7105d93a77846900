//! The abstract model of a run of the counter demo.
//!
//! A run is described by a schedule: the sequence of worker identifiers in
//! the order in which the scheduler lets them perform their single
//! increment. The model tracks the counter value and which workers are done,
//! and the laws below state that the outcome is independent of the order:
//! every complete schedule of `n` workers ends with the counter at exactly
//! `n`, and at every intermediate point the counter equals the number of
//! completed increments.

use vstd::prelude::*;

verus! {

/// The abstract state of a run: the counter value and, for each worker,
/// whether its increment has been applied.
pub struct RunModel {
    pub value: nat,
    pub done: Seq<bool>,
}

/// The state before any worker has run: counter zero, no worker done.
pub open spec fn init_model(n: nat) -> RunModel {
    RunModel { value: 0, done: Seq::new(n, |i: int| false) }
}

/// One scheduling step: worker `id` performs its single increment. A worker
/// increments the counter exactly once; an identifier that is out of range
/// or already done changes nothing.
pub open spec fn step_model(m: RunModel, id: nat) -> RunModel {
    if id < m.done.len() && !m.done[id as int] {
        RunModel { value: m.value + 1, done: m.done.update(id as int, true) }
    } else {
        m
    }
}

/// The state of a run of `n` workers after the scheduling steps in `order`
/// have happened, in order.
pub open spec fn run_model(n: nat, order: Seq<usize>) -> RunModel
    decreases order.len(),
{
    if order.len() == 0 {
        init_model(n)
    } else {
        step_model(run_model(n, order.drop_last()), order.last() as nat)
    }
}

/// `order` is a possible beginning of a schedule of `n` workers: every entry
/// names one of the `n` workers, and no worker is scheduled twice, since each
/// worker terminates after its single increment.
pub open spec fn partial_schedule(n: nat, order: Seq<usize>) -> bool {
    &&& forall|i: int| 0 <= i < order.len() ==> (order[i] as nat) < n
    &&& forall|i: int, j: int| 0 <= i < j < order.len() ==> order[i] != order[j]
}

/// `order` is a complete schedule of `n` workers: each of the `n` workers
/// runs exactly once — every identifier below `n` occurs, none occurs twice —
/// in an arbitrary order.
pub open spec fn valid_schedule(n: nat, order: Seq<usize>) -> bool {
    &&& partial_schedule(n, order)
    &&& order.len() == n
    &&& forall|j: usize| j < n ==> #[trigger] order.contains(j)
}

/// How many workers are done: the number of `true` entries.
pub open spec fn count_done(done: Seq<bool>) -> nat
    decreases done.len(),
{
    if done.len() == 0 {
        0
    } else {
        count_done(done.drop_last()) + if done.last() {
            1nat
        } else {
            0nat
        }
    }
}

/// Setting one `false` entry to `true` raises the count by exactly one.
proof fn lemma_count_done_update(done: Seq<bool>, id: int)
    requires
        0 <= id < done.len(),
        !done[id],
    ensures
        count_done(done.update(id, true)) == count_done(done) + 1,
    decreases done.len(),
{
    let upd = done.update(id, true);
    if id == done.len() - 1 {
        assert(upd.drop_last() =~= done.drop_last());
    } else {
        assert(upd.drop_last() =~= done.drop_last().update(id, true));
        lemma_count_done_update(done.drop_last(), id);
    }
}

/// A beginning of a partial schedule is itself a partial schedule.
pub proof fn lemma_partial_prefix(n: nat, order: Seq<usize>, k: int)
    requires
        partial_schedule(n, order),
        0 <= k <= order.len(),
    ensures
        partial_schedule(n, order.take(k)),
{
    assert(forall|i: int| 0 <= i < k ==> order.take(k)[i] == order[i]);
}

/// The run invariant: after any partial schedule, every spawned worker is
/// done exactly when the schedule has run it, and the counter equals the
/// number of scheduling steps taken.
pub proof fn lemma_run_model(n: nat, order: Seq<usize>)
    requires
        partial_schedule(n, order),
    ensures
        run_model(n, order).done.len() == n,
        run_model(n, order).value == order.len(),
        forall|j: usize| j < n ==>
            (run_model(n, order).done[j as int] <==> #[trigger] order.contains(j)),
    decreases order.len(),
{
    if order.len() == 0 {
        assert forall|j: usize| j < n implies
            (run_model(n, order).done[j as int] <==> #[trigger] order.contains(j)) by {
            if order.contains(j) {
                let k = choose|k: int| 0 <= k < order.len() && order[k] == j;
            }
        }
    } else {
        let prefix = order.drop_last();
        let id = order.last();
        assert(prefix =~= order.take(order.len() - 1));
        lemma_partial_prefix(n, order, order.len() - 1);
        lemma_run_model(n, prefix);
        let m0 = run_model(n, prefix);
        assert((id as nat) < n);
        // The last-scheduled worker has not run before: the schedule names
        // no worker twice.
        assert(!prefix.contains(id)) by {
            if prefix.contains(id) {
                let k = choose|k: int| 0 <= k < prefix.len() && prefix[k] == id;
                assert(order[k] == order[order.len() - 1]);
            }
        }
        assert(!m0.done[id as int]);
        let m1 = run_model(n, order);
        assert(m1 == step_model(m0, id as nat));
        assert(m1.done =~= m0.done.update(id as int, true));
        assert forall|j: usize| j < n implies
            (m1.done[j as int] <==> #[trigger] order.contains(j)) by {
            if m1.done[j as int] {
                if j == id {
                    assert(order[order.len() - 1] == j);
                    assert(order.contains(j));
                } else {
                    assert(m0.done[j as int]);
                    assert(prefix.contains(j));
                    let k = choose|k: int| 0 <= k < prefix.len() && prefix[k] == j;
                    assert(order[k] == j);
                    assert(order.contains(j));
                }
            }
            if order.contains(j) {
                let k = choose|k: int| 0 <= k < order.len() && order[k] == j;
                if k < order.len() - 1 {
                    assert(prefix[k] == j);
                    assert(prefix.contains(j));
                    assert(m0.done[j as int]);
                    assert(m1.done[j as int]);
                } else {
                    assert(j == id);
                    assert(m1.done[j as int]);
                }
            }
        }
    }
}

/// Law: the final counter value is independent of the scheduling order.
/// Every complete schedule of `n` workers — whatever permutation of the
/// workers the scheduler happens to pick — ends with the counter at
/// exactly `n`: the sum of the increments is order-independent under
/// mutual exclusion.
pub proof fn lemma_schedule_independence(n: nat, order: Seq<usize>)
    requires
        valid_schedule(n, order),
    ensures
        run_model(n, order).value == n,
{
    lemma_run_model(n, order);
}

/// Law: runs with the same worker count are deterministic in their final
/// value. Two complete schedules of the same `n` workers end with the same
/// counter value, even though the per-worker completion order differs.
pub proof fn lemma_deterministic(n: nat, order1: Seq<usize>, order2: Seq<usize>)
    requires
        valid_schedule(n, order1),
        valid_schedule(n, order2),
    ensures
        run_model(n, order1).value == run_model(n, order2).value,
{
    lemma_schedule_independence(n, order1);
    lemma_schedule_independence(n, order2);
}

/// Law: no torn reads. At every intermediate point of a complete schedule —
/// after any prefix of `k` scheduling steps — the counter value equals the
/// number of workers whose increment has completed: a whole number of
/// completed increments, never a partial one.
pub proof fn lemma_no_torn_reads(n: nat, order: Seq<usize>, k: int)
    requires
        valid_schedule(n, order),
        0 <= k <= order.len(),
    ensures
        run_model(n, order.take(k)).value == count_done(run_model(n, order.take(k)).done),
{
    lemma_partial_prefix(n, order, k);
    lemma_value_counts_done(n, order.take(k));
}

/// After any partial schedule, the counter value equals the number of
/// workers that are done.
proof fn lemma_value_counts_done(n: nat, order: Seq<usize>)
    requires
        partial_schedule(n, order),
    ensures
        run_model(n, order).value == count_done(run_model(n, order).done),
    decreases order.len(),
{
    if order.len() == 0 {
        lemma_count_done_all_false(n);
    } else {
        let prefix = order.drop_last();
        let id = order.last();
        assert(prefix =~= order.take(order.len() - 1));
        lemma_partial_prefix(n, order, order.len() - 1);
        lemma_value_counts_done(n, prefix);
        lemma_run_model(n, prefix);
        let m0 = run_model(n, prefix);
        assert(!prefix.contains(id)) by {
            if prefix.contains(id) {
                let k = choose|k: int| 0 <= k < prefix.len() && prefix[k] == id;
                assert(order[k] == order[order.len() - 1]);
            }
        }
        assert(!m0.done[id as int]);
        lemma_count_done_update(m0.done, id as int);
    }
}

/// In the initial state no worker is done.
proof fn lemma_count_done_all_false(n: nat)
    ensures
        count_done(Seq::new(n, |i: int| false)) == 0,
    decreases n,
{
    if n > 0 {
        assert(Seq::new(n, |i: int| false).drop_last() =~= Seq::new(
            (n - 1) as nat,
            |i: int| false,
        ));
        lemma_count_done_all_false((n - 1) as nat);
    }
}

} // verus!
