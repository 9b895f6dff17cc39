use std::collections::BTreeMap;

use iobench::{
    cleanup_plan, failed_workers, phase_of, setup_plan, IoWorker, ModeFlags, Report,
    WorkerOutcome, WorkspaceOp, CHUNK_SIZE_BYTES, FILE_SIZE_BYTES, LOG_RECORD, REPORT_INTERVAL_MS,
    WORKER_COUNT,
};

/// The file lengths that a plan leaves on an in-memory disk.
fn apply(dir: &mut bool, files: &mut BTreeMap<usize, u64>, ops: &[WorkspaceOp]) {
    for op in ops {
        match *op {
            WorkspaceOp::CreateDir => *dir = true,
            WorkspaceOp::CreateFile { worker } => {
                files.insert(worker, 0);
            }
            WorkspaceOp::AppendZeros { worker, len } => *files.get_mut(&worker).unwrap() += len,
            WorkspaceOp::RemoveFile { worker } => {
                files.remove(&worker);
            }
            WorkspaceOp::RemoveDir => *dir = false,
        }
    }
}

struct Run {
    reports: Vec<Vec<Report>>,
    sizes: Vec<Vec<u64>>,
    outcomes: Vec<WorkerOutcome>,
    dir_left: bool,
    files_left: usize,
}

/// Runs the workers round-robin on an in-memory disk, 100 ms of clock per
/// iteration, for two reporting intervals; then stops them and reclaims
/// the workspace.
fn simulate(read_on: bool, write_on: bool) -> Run {
    let mut dir = false;
    let mut files = BTreeMap::new();
    apply(&mut dir, &mut files, &setup_plan(WORKER_COUNT, FILE_SIZE_BYTES, CHUNK_SIZE_BYTES));
    let flags = ModeFlags::new(read_on, write_on);
    let mut workers: Vec<IoWorker> = (0..WORKER_COUNT)
        .map(|w| IoWorker::new(w, FILE_SIZE_BYTES, CHUNK_SIZE_BYTES, REPORT_INTERVAL_MS, 0))
        .collect();
    let mut done = vec![false; WORKER_COUNT];
    let mut reports = vec![Vec::new(); WORKER_COUNT];
    let mut sizes = vec![Vec::new(); WORKER_COUNT];
    let mut outcomes = Vec::new();
    let mut now: u64 = 0;
    while done.iter().any(|d| !d) {
        now += 100;
        for (w, worker) in workers.iter_mut().enumerate() {
            if done[w] {
                continue;
            }
            let phase = phase_of(flags.is_running(), flags.read_enabled(), flags.write_enabled());
            if phase == iobench::Phase::Stopped {
                done[w] = true;
                outcomes.push(WorkerOutcome::Stopped { worker: w });
                continue;
            }
            let len = files[&w];
            if phase.reads() {
                let n = CHUNK_SIZE_BYTES.min(len.saturating_sub(worker.read_cursor));
                worker.record_read(n);
            }
            if phase.writes() {
                let n = LOG_RECORD.len() as u64;
                *files.get_mut(&w).unwrap() += n;
                worker.record_write(n);
            }
            sizes[w].push(files[&w]);
            if let Some(r) = worker.take_report(now) {
                reports[w].push(r);
            }
        }
        if now >= 2 * REPORT_INTERVAL_MS {
            flags.request_stop();
        }
    }
    apply(&mut dir, &mut files, &cleanup_plan(WORKER_COUNT));
    Run { reports, sizes, outcomes, dir_left: dir, files_left: files.len() }
}

#[test]
fn read_only_run_reports_reads_and_cleans_up() {
    let run = simulate(true, false);
    assert_eq!(run.reports.len(), 3);
    for reports in &run.reports {
        assert_eq!(reports.len(), 2);
        for r in reports {
            assert!(r.read_rate > 0);
            assert_eq!(r.write_rate, 0);
            assert_eq!(r.elapsed_ms, 5_000);
        }
    }
    assert_eq!(run.outcomes.len(), 3);
    assert!(failed_workers(&run.outcomes).is_empty());
    assert!(!run.dir_left);
    assert_eq!(run.files_left, 0);
}

#[test]
fn read_write_run_reports_both_and_files_grow() {
    let run = simulate(true, true);
    for reports in &run.reports {
        assert_eq!(reports.len(), 2);
        for r in reports {
            assert!(r.read_rate > 0);
            assert!(r.write_rate > 0);
        }
    }
    for sizes in &run.sizes {
        assert!(sizes.windows(2).all(|p| p[0] < p[1]));
        assert!(sizes[0] > FILE_SIZE_BYTES);
    }
    assert!(failed_workers(&run.outcomes).is_empty());
    assert!(!run.dir_left);
    assert_eq!(run.files_left, 0);
}

#[test]
fn idle_run_reports_zero_rates() {
    let run = simulate(false, false);
    for reports in &run.reports {
        assert_eq!(reports.len(), 2);
        for r in reports {
            assert_eq!(r.read_rate, 0);
            assert_eq!(r.write_rate, 0);
        }
    }
}

#[test]
fn toggling_takes_effect_on_the_next_iteration() {
    let flags = ModeFlags::new(false, false);
    let mut worker = IoWorker::new(0, 1_000, 100, 5_000, 0);
    let step = |flags: &ModeFlags, worker: &mut IoWorker| {
        let phase = phase_of(flags.is_running(), flags.read_enabled(), flags.write_enabled());
        if phase.reads() {
            worker.record_read(100);
        }
        if phase.writes() {
            worker.record_write(24);
        }
    };
    step(&flags, &mut worker);
    assert_eq!((worker.bytes_read, worker.bytes_written), (0, 0));
    flags.set_read_enabled(true);
    step(&flags, &mut worker);
    assert_eq!((worker.bytes_read, worker.bytes_written), (100, 0));
    flags.set_write_enabled(true);
    step(&flags, &mut worker);
    assert_eq!((worker.bytes_read, worker.bytes_written), (200, 24));
    flags.set_read_enabled(false);
    step(&flags, &mut worker);
    assert_eq!((worker.bytes_read, worker.bytes_written), (200, 48));
    flags.request_stop();
    assert_eq!(
        phase_of(flags.is_running(), flags.read_enabled(), flags.write_enabled()),
        iobench::Phase::Stopped
    );
}
