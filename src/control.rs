use vstd::prelude::*;
use std::sync::atomic::{AtomicBool, Ordering};

verus! {

/// The mode flags shared by every worker: whether reads and writes are on,
/// and whether the benchmark is still running. Each flag is read and set on
/// its own with relaxed ordering; no two reads are consistent with each
/// other, and a value read may already be stale, so no method promises
/// what a read returns.
pub struct ModeFlags {
    read_enabled: AtomicBool,
    write_enabled: AtomicBool,
    running: AtomicBool,
}

impl ModeFlags {
    /// Flags with reading and writing as given and the benchmark running.
    pub fn new(read_enabled: bool, write_enabled: bool) -> (r: ModeFlags) {
        ModeFlags {
            read_enabled: AtomicBool::new(read_enabled),
            write_enabled: AtomicBool::new(write_enabled),
            running: AtomicBool::new(true),
        }
    }

    pub fn read_enabled(&self) -> bool {
        self.read_enabled.load(Ordering::Relaxed)
    }

    pub fn set_read_enabled(&self, on: bool) {
        self.read_enabled.store(on, Ordering::Relaxed)
    }

    pub fn write_enabled(&self) -> bool {
        self.write_enabled.load(Ordering::Relaxed)
    }

    pub fn set_write_enabled(&self, on: bool) {
        self.write_enabled.store(on, Ordering::Relaxed)
    }

    pub fn is_running(&self) -> bool {
        self.running.load(Ordering::Relaxed)
    }

    /// Asks every worker to stop: clears the running flag. Asking again
    /// changes nothing.
    pub fn request_stop(&self) {
        self.running.store(false, Ordering::Relaxed)
    }
}

/// The I/O operation that failed.
#[derive(PartialEq, Eq, Structural, Clone, Copy, Debug)]
pub enum IoStage {
    Read,
    Write,
}

/// How a worker's loop ended.
#[derive(PartialEq, Eq, Structural, Clone, Copy, Debug)]
pub enum WorkerOutcome {
    /// The worker saw the running flag off.
    Stopped { worker: usize },
    /// An I/O operation on the worker's backing file failed.
    Failed { worker: usize, stage: IoStage },
}

/// The workers that failed, in the order of `s`.
pub open spec fn failed_ids(s: Seq<WorkerOutcome>) -> Seq<usize>
    decreases s.len(),
{
    if s.len() == 0 {
        Seq::empty()
    } else {
        let rest = failed_ids(s.drop_last());
        match s.last() {
            WorkerOutcome::Failed { worker, .. } => rest.push(worker),
            WorkerOutcome::Stopped { .. } => rest,
        }
    }
}

/// The index of every worker whose loop ended in failure, in the order the
/// outcomes were joined, so that none goes unreported.
pub fn failed_workers(outcomes: &Vec<WorkerOutcome>) -> (r: Vec<usize>)
    ensures
        r@ == failed_ids(outcomes@),
{
    let mut r: Vec<usize> = Vec::new();
    let mut i: usize = 0;
    while i < outcomes.len()
        invariant
            i <= outcomes@.len(),
            r@ == failed_ids(outcomes@.subrange(0, i as int)),
        decreases outcomes@.len() - i,
    {
        assert(outcomes@.subrange(0, i + 1).drop_last() =~= outcomes@.subrange(0, i as int));
        match outcomes[i] {
            WorkerOutcome::Failed { worker, .. } => r.push(worker),
            WorkerOutcome::Stopped { .. } => {},
        }
        i = i + 1;
    }
    assert(outcomes@.subrange(0, i as int) =~= outcomes@);
    r
}

} // verus!
