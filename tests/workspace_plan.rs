use std::collections::BTreeMap;

use iobench::{
    backing_file_name, chunks_per_file, cleanup_plan, setup_plan, status_accepted,
    CHUNK_SIZE_BYTES, FILE_SIZE_BYTES, OpStatus, WORKER_COUNT, WorkspaceOp,
};

/// Carries out a plan on an in-memory disk: whether the directory exists,
/// and each file's size by worker.
fn run(dir: &mut bool, files: &mut BTreeMap<usize, u64>, ops: &[WorkspaceOp]) {
    for op in ops {
        match *op {
            WorkspaceOp::CreateDir => {
                assert!(!*dir);
                *dir = true;
            }
            WorkspaceOp::CreateFile { worker } => {
                assert!(*dir);
                files.insert(worker, 0);
            }
            WorkspaceOp::AppendZeros { worker, len } => {
                *files.get_mut(&worker).unwrap() += len;
            }
            WorkspaceOp::RemoveFile { worker } => {
                files.remove(&worker);
            }
            WorkspaceOp::RemoveDir => {
                assert!(files.is_empty());
                *dir = false;
            }
        }
    }
}

#[test]
fn chunk_count_rounds_up() {
    assert_eq!(chunks_per_file(FILE_SIZE_BYTES, CHUNK_SIZE_BYTES), 16);
    assert_eq!(chunks_per_file(10, 3), 4);
    assert_eq!(chunks_per_file(9, 3), 3);
    assert_eq!(chunks_per_file(0, 3), 0);
    assert_eq!(chunks_per_file(1, 8), 1);
}

#[test]
fn setup_plan_builds_directory_then_files() {
    let plan = setup_plan(2, 10, 4);
    assert_eq!(
        plan,
        vec![
            WorkspaceOp::CreateDir,
            WorkspaceOp::CreateFile { worker: 0 },
            WorkspaceOp::AppendZeros { worker: 0, len: 4 },
            WorkspaceOp::AppendZeros { worker: 0, len: 4 },
            WorkspaceOp::AppendZeros { worker: 0, len: 4 },
            WorkspaceOp::CreateFile { worker: 1 },
            WorkspaceOp::AppendZeros { worker: 1, len: 4 },
            WorkspaceOp::AppendZeros { worker: 1, len: 4 },
            WorkspaceOp::AppendZeros { worker: 1, len: 4 },
        ]
    );
}

#[test]
fn setup_with_no_workers_only_creates_the_directory() {
    assert_eq!(setup_plan(0, 10, 4), vec![WorkspaceOp::CreateDir]);
    assert_eq!(cleanup_plan(0), vec![WorkspaceOp::RemoveDir]);
}

#[test]
fn every_file_reaches_the_target_size() {
    let plan = setup_plan(WORKER_COUNT, FILE_SIZE_BYTES, CHUNK_SIZE_BYTES);
    assert_eq!(plan.len(), 1 + 3 * 17);
    let mut dir = false;
    let mut files = BTreeMap::new();
    run(&mut dir, &mut files, &plan);
    assert!(dir);
    assert_eq!(files.len(), 3);
    for w in 0..3 {
        assert_eq!(files[&w], FILE_SIZE_BYTES);
    }
}

#[test]
fn uneven_chunks_still_reach_the_target_size() {
    let plan = setup_plan(2, 10, 4);
    let mut dir = false;
    let mut files = BTreeMap::new();
    run(&mut dir, &mut files, &plan);
    assert_eq!(files[&0], 12);
    assert_eq!(files[&1], 12);
}

#[test]
fn cleanup_removes_files_then_directory() {
    assert_eq!(
        cleanup_plan(3),
        vec![
            WorkspaceOp::RemoveFile { worker: 0 },
            WorkspaceOp::RemoveFile { worker: 1 },
            WorkspaceOp::RemoveFile { worker: 2 },
            WorkspaceOp::RemoveDir,
        ]
    );
}

#[test]
fn cleanup_after_setup_leaves_nothing() {
    let mut dir = false;
    let mut files = BTreeMap::new();
    run(&mut dir, &mut files, &setup_plan(3, 100, 30));
    run(&mut dir, &mut files, &cleanup_plan(3));
    assert!(!dir);
    assert!(files.is_empty());
}

#[test]
fn missing_file_is_tolerated_only_at_cleanup() {
    assert!(status_accepted(WorkspaceOp::RemoveFile { worker: 1 }, OpStatus::NotFound));
    assert!(status_accepted(WorkspaceOp::RemoveFile { worker: 1 }, OpStatus::Done));
    assert!(!status_accepted(WorkspaceOp::RemoveFile { worker: 1 }, OpStatus::Failed));
    assert!(!status_accepted(WorkspaceOp::RemoveDir, OpStatus::NotFound));
    assert!(!status_accepted(WorkspaceOp::CreateFile { worker: 0 }, OpStatus::NotFound));
    assert!(!status_accepted(WorkspaceOp::CreateDir, OpStatus::Failed));
    assert!(status_accepted(WorkspaceOp::CreateDir, OpStatus::Done));
    assert!(!status_accepted(WorkspaceOp::AppendZeros { worker: 0, len: 1 }, OpStatus::Failed));
}

#[test]
fn backing_files_are_named_by_index() {
    assert_eq!(backing_file_name(0), "io_test_file_0");
    assert_eq!(backing_file_name(2), "io_test_file_2");
    assert_eq!(backing_file_name(12), "io_test_file_12");
    assert_eq!(backing_file_name(305), "io_test_file_305");
}

#[test]
fn cleanup_with_a_file_already_gone_leaves_nothing() {
    let mut dir = false;
    let mut files = BTreeMap::new();
    run(&mut dir, &mut files, &setup_plan(3, 100, 30));
    files.remove(&1);
    run(&mut dir, &mut files, &cleanup_plan(3));
    assert!(!dir);
    assert!(files.is_empty());
}
