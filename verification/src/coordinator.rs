//! The search coordinator's decision logic: progress accounting, the
//! per-worker state machine, and the run's fixed defaults. The surrounding
//! program owns the worker pool, the shared atomics behind the Progress
//! Counter and the Cancellation Flag, and the reporting surface; it feeds
//! their plain values through these functions.

use vstd::prelude::*;

verus! {

/// A Progress Event is emitted once every this many examinations.
pub const PROGRESS_INTERVAL: u64 = 1000;

/// The clean-ratio threshold used when none is configured, in parts per
/// million (a ratio of 0.92).
pub const DEFAULT_CLEAN_RATIO_PPM: u64 = 920000;

/// The prefix searched for when neither mode is configured.
pub fn default_prefix() -> (r: String)
    ensures
        r@ == "0x1337"@,
{
    "0x1337".to_owned()
}

/// The count of wallets examined so far. The surrounding program keeps one
/// such count per run, shared by all workers; each examination increments it
/// exactly once.
pub struct ProgressCounter {
    pub count: u64,
}

impl ProgressCounter {
    /// A fresh counter: nothing examined yet.
    pub fn new() -> (r: ProgressCounter)
        ensures
            r.count == 0,
    {
        ProgressCounter { count: 0 }
    }

    /// Record one examination: the count grows by exactly one — no
    /// examination is lost and none is counted twice. Returns the new total.
    pub fn increment(&mut self) -> (total: u64)
        requires
            old(self).count < u64::MAX,
        ensures
            final(self).count == old(self).count + 1,
            total == final(self).count,
    {
        self.count = self.count + 1;
        self.count
    }
}

/// Whether a Progress Event is owed after the examination that brought the
/// total to `total`: one every `PROGRESS_INTERVAL` examinations.
pub fn should_report_progress(total: u64) -> (r: bool)
    ensures
        r == (total % PROGRESS_INTERVAL == 0),
{
    total % PROGRESS_INTERVAL == 0
}

/// A worker is either still searching or has terminated.
pub enum WorkerState {
    Running,
    Stopped,
}

/// The worker state machine: a running worker keeps running while the
/// Cancellation Flag still reads "keep running", and stops as soon as it
/// reads "stop"; a stopped worker stays stopped.
pub open spec fn spec_worker_next(state: WorkerState, keep_running: bool) -> WorkerState {
    match state {
        WorkerState::Running => if keep_running {
            WorkerState::Running
        } else {
            WorkerState::Stopped
        },
        WorkerState::Stopped => WorkerState::Stopped,
    }
}

/// Step the worker state machine on one reading of the Cancellation Flag.
pub fn worker_next(state: WorkerState, keep_running: bool) -> (next: WorkerState)
    ensures
        next == spec_worker_next(state, keep_running),
{
    match state {
        WorkerState::Running => if keep_running {
            WorkerState::Running
        } else {
            WorkerState::Stopped
        },
        WorkerState::Stopped => WorkerState::Stopped,
    }
}

/// Cancellation latency: once the Cancellation Flag reads "stop", every
/// worker reaches its terminal state on the very next step, whatever state
/// it is in — no worker keeps searching past the signal.
pub proof fn lemma_cancellation_stops_workers(state: WorkerState)
    ensures
        spec_worker_next(state, false) is Stopped,
{
}

/// A stopped worker never resumes: `Stopped` is terminal.
pub proof fn lemma_stopped_is_terminal(keep_running: bool)
    ensures
        spec_worker_next(WorkerState::Stopped, keep_running) is Stopped,
{
}

} // verus!
