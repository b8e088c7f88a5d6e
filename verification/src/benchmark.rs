//! Wall-clock and resource accounting for a run.
//!
//! A tracker fixes a baseline when it is made: the time, and the memory in
//! use. Every later sample is reported against that same baseline.

use crate::clock::{duration_micros, elapsed_since, now};
use std::time::{Duration, Instant};
use sysinfo::System;
use vstd::prelude::*;

verus! {

/// `sysinfo::System`, the sampled state of the machine, carried as an
/// opaque value.
#[verifier::external_type_specification]
#[verifier::external_body]
pub struct ExSystem(System);

/// The resources a run has used so far: memory in bytes, against the
/// tracker's baseline and in total, and the machine's processors and
/// worker threads.
#[derive(Debug)]
pub struct ResourceMetrics {
    pub memory_used: u64,
    pub total_memory: u64,
    pub cpu_count: usize,
    pub rayon_threads: usize,
}

/// A run's tracker: when it began, the memory in use at that time, and the
/// machine it runs on.
#[derive(Debug)]
pub struct BenchmarkTracker {
    start_time: Instant,
    initial_memory: u64,
    cpu_count: usize,
    rayon_threads: usize,
    sys: System,
}

/// The size of the worker pool on a machine with `available` processors:
/// all of them but one, and at least one.
pub open spec fn worker_threads(available: int) -> int {
    if available - 1 >= 1 {
        available - 1
    } else {
        1
    }
}

/// The memory taken since the baseline; zero where memory was given back.
pub open spec fn memory_delta(initial: int, current: int) -> int {
    if current >= initial {
        current - initial
    } else {
        0
    }
}

/// The size of the worker pool on a machine with `available` processors.
pub fn worker_count(available: usize) -> (workers: usize)
    ensures
        workers == worker_threads(available as int),
{
    if available >= 2 {
        available - 1
    } else {
        1
    }
}

/// The metrics of a sample that found `current_memory` bytes in use, of
/// `total_memory`, on a tracker whose baseline was `initial_memory`.
pub fn metrics_of(
    initial_memory: u64,
    current_memory: u64,
    total_memory: u64,
    cpu_count: usize,
    rayon_threads: usize,
) -> (metrics: ResourceMetrics)
    ensures
        metrics.memory_used == memory_delta(initial_memory as int, current_memory as int),
        metrics.total_memory == total_memory,
        metrics.cpu_count == cpu_count,
        metrics.rayon_threads == rayon_threads,
{
    let memory_used: u64 = current_memory.saturating_sub(initial_memory);
    ResourceMetrics { memory_used, total_memory, cpu_count, rayon_threads }
}

/// The number of processors this process may run on, by `num_cpus::get`.
/// It is the machine's answer: nothing is stated of it.
#[verifier::external_body]
fn available_cpus() -> usize {
    num_cpus::get()
}

/// A fresh view of the system with everything loaded, by `System::new_all`.
#[verifier::external_body]
fn system_new_all() -> System {
    System::new_all()
}

/// Samples the system again, by `System::refresh_all`. What it finds is the
/// machine's business: nothing is stated of the new state.
#[verifier::external_body]
fn system_refresh(sys: &mut System) {
    sys.refresh_all()
}

/// The bytes of memory in use at the last sample, by `System::used_memory`.
#[verifier::external_body]
fn system_used_memory(sys: &System) -> u64 {
    sys.used_memory()
}

/// The bytes of memory the machine has, by `System::total_memory`.
#[verifier::external_body]
fn system_total_memory(sys: &System) -> u64 {
    sys.total_memory()
}

/// The number of processors in the list that `System::cpus` returns.
#[verifier::external_body]
fn system_cpu_count(sys: &System) -> usize {
    sys.cpus().len()
}

impl BenchmarkTracker {
    /// The clock reading taken when the tracker was made, from which
    /// elapsed time is measured.
    pub closed spec fn start_time(&self) -> Instant {
        self.start_time
    }

    /// The memory in use when the tracker was made, in bytes.
    pub closed spec fn initial_memory(&self) -> u64 {
        self.initial_memory
    }

    /// The number of processors found when the tracker was made.
    pub closed spec fn cpu_count(&self) -> usize {
        self.cpu_count
    }

    /// The size of the worker pool.
    pub closed spec fn rayon_threads(&self) -> usize {
        self.rayon_threads
    }

    /// Starts a run: reads the clock and samples the system for the
    /// baseline.
    pub fn new() -> (tracker: Self)
        ensures
            tracker.rayon_threads() >= 1,
    {
        let mut sys = system_new_all();
        system_refresh(&mut sys);
        let initial_memory = system_used_memory(&sys);
        let cpu_count = system_cpu_count(&sys);
        let rayon_threads = worker_count(available_cpus());
        Self { start_time: now(), initial_memory, cpu_count, rayon_threads, sys }
    }

    /// The time since the tracker was made.
    pub fn elapsed(&self) -> Duration {
        elapsed_since(&self.start_time)
    }

    /// The time since the tracker was made, in whole microseconds.
    pub fn elapsed_micros(&self) -> u128 {
        let passed = elapsed_since(&self.start_time);
        duration_micros(&passed)
    }

    /// Samples the system again and reports it against the baseline. The
    /// baseline and the start of the clock stay as they were.
    pub fn get_resources(&mut self) -> (metrics: ResourceMetrics)
        ensures
            final(self).start_time() == old(self).start_time(),
            final(self).initial_memory() == old(self).initial_memory(),
            final(self).cpu_count() == old(self).cpu_count(),
            final(self).rayon_threads() == old(self).rayon_threads(),
            metrics.cpu_count == old(self).cpu_count(),
            metrics.rayon_threads == old(self).rayon_threads(),
    {
        system_refresh(&mut self.sys);
        let current = system_used_memory(&self.sys);
        let total = system_total_memory(&self.sys);
        metrics_of(self.initial_memory, current, total, self.cpu_count, self.rayon_threads)
    }
}

impl Default for BenchmarkTracker {
    fn default() -> (tracker: Self)
        ensures
            tracker.rayon_threads() >= 1,
    {
        Self::new()
    }
}

} // verus!
