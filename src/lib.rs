//! A concurrent disk-throughput benchmark engine.
//!
//! The library holds the decisions of the benchmark: the plan that builds and
//! reclaims the workspace of backing files (with a model of the disk that the
//! plan is proved against), the per-worker state machine with its wrapping read
//! cursor, byte counters and rate reports, the shared mode flags, the collection
//! of worker outcomes and the operator's stop command. Performing the file I/O,
//! running the threads and reading the console is left to the caller.
mod command;
mod config;
mod control;
mod cpu;
mod worker;
mod workspace;

pub use command::is_stop_command;
pub use config::{
    backing_file_name, CHUNK_SIZE_BYTES, FILE_SIZE_BYTES, FILE_STEM, IDLE_PAUSE_MS, LOG_RECORD,
    REPORT_INTERVAL_MS, WORKER_COUNT, WORKSPACE_DIR,
};
pub use control::{failed_workers, IoStage, ModeFlags, WorkerOutcome};
pub use cpu::{cpu_intensive_task, ROUND_TERMS};
pub use worker::{phase_of, report_due, IoWorker, Phase, Report};
pub use workspace::{
    chunks_per_file, cleanup_plan, setup_plan, status_accepted, OpStatus, WorkspaceOp,
};
