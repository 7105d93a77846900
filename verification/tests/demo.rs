use counter_demo::counter::{run_demo, CounterError, JoinSet, SharedCounter};

#[test]
fn final_value_is_ten() {
    let order: Vec<usize> = (0..10).collect();
    assert_eq!(run_demo(10, &order), Ok(10));
}

#[test]
fn final_value_zero_workers() {
    let order: Vec<usize> = Vec::new();
    assert_eq!(run_demo(0, &order), Ok(0));
}

#[test]
fn wait_with_no_workers_returns_immediately() {
    let mut set = JoinSet::new();
    assert_eq!(set.len(), 0);
    assert_eq!(set.await_all(), Ok(()));
    assert_eq!(set.len(), 0);
}

#[test]
fn final_value_independent_of_order() {
    let forward: Vec<usize> = (0..10).collect();
    let backward: Vec<usize> = (0..10).rev().collect();
    let shuffled: Vec<usize> = vec![3, 1, 4, 0, 9, 2, 6, 5, 8, 7];
    let a = run_demo(10, &forward);
    let b = run_demo(10, &backward);
    let c = run_demo(10, &shuffled);
    assert_eq!(a, Ok(10));
    assert_eq!(a, b);
    assert_eq!(a, c);
}

#[test]
fn repeated_runs_are_deterministic() {
    let order: Vec<usize> = (0..10).collect();
    let first = run_demo(10, &order);
    let second = run_demo(10, &order);
    assert_eq!(first, Ok(10));
    assert_eq!(first, second);
}

#[test]
fn intermediate_reads_count_completed_increments() {
    let mut counter = SharedCounter::new();
    assert_eq!(counter.read_counter(), Ok(0));
    assert_eq!(counter.increment(), Ok(()));
    assert_eq!(counter.read_counter(), Ok(1));
    assert_eq!(counter.increment(), Ok(()));
    assert_eq!(counter.read_counter(), Ok(2));
}

#[test]
fn poisoned_lock_fails_fatally() {
    let mut counter = SharedCounter::new();
    assert_eq!(counter.increment(), Ok(()));
    counter.poison();
    assert_eq!(counter.increment(), Err(CounterError::Poisoned));
    assert_eq!(counter.read_counter(), Err(CounterError::Poisoned));
    // The failure is terminal: it stays fatal on every later attempt.
    assert_eq!(counter.increment(), Err(CounterError::Poisoned));
}

#[test]
fn worker_fault_while_holding_lock_poisons_the_run() {
    let mut counter = SharedCounter::new();
    let mut set = JoinSet::new();
    set.spawn_worker();
    set.spawn_worker();
    assert_eq!(set.len(), 2);
    // The first worker dies while holding the lock.
    set.run_worker(0, &mut counter, true);
    // The second worker then fails to acquire the poisoned lock.
    set.run_worker(1, &mut counter, false);
    assert_eq!(set.await_all(), Err(CounterError::Poisoned));
    assert_eq!(set.len(), 0);
    assert_eq!(counter.read_counter(), Err(CounterError::Poisoned));
}

#[test]
fn normal_run_through_join_set() {
    let mut counter = SharedCounter::new();
    let mut set = JoinSet::new();
    for _ in 0..3 {
        set.spawn_worker();
    }
    set.run_worker(2, &mut counter, false);
    set.run_worker(0, &mut counter, false);
    set.run_worker(1, &mut counter, false);
    assert_eq!(set.await_all(), Ok(()));
    assert_eq!(set.len(), 0);
    assert_eq!(counter.read_counter(), Ok(3));
}
