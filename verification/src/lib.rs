//! A verified model of a small concurrent-counter demo, together with a few
//! verified helpers around it.
//!
//! The core is [`counter`]: a shared integer counter guarded by a
//! mutual-exclusion lock, incremented exactly once by each of `N` workers,
//! with a `JoinSet` of worker handles and a fatal lock-poisoning policy.
//! The model proves that every complete schedule of the workers leaves the
//! counter at exactly `N`, whatever the order of execution.

pub mod counter;
pub mod decimal;
pub mod numbers;
pub mod schedule;
pub mod shapes;
pub mod text;
