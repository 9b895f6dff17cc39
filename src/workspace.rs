use vstd::prelude::*;

verus! {

/// One step of building or reclaiming the workspace. Files are named by the
/// index of the worker that owns them.
#[derive(PartialEq, Eq, Structural, Clone, Copy, Debug)]
pub enum WorkspaceOp {
    /// Create the workspace directory; it must not exist yet.
    CreateDir,
    /// Create the worker's backing file, empty.
    CreateFile { worker: usize },
    /// Append `len` zero bytes to the worker's backing file.
    AppendZeros { worker: usize, len: u64 },
    /// Remove the worker's backing file.
    RemoveFile { worker: usize },
    /// Remove the workspace directory.
    RemoveDir,
}

/// How the filesystem answered one step.
#[derive(PartialEq, Eq, Structural, Clone, Copy, Debug)]
pub enum OpStatus {
    Done,
    /// The file or directory was not there.
    NotFound,
    /// Any other failure.
    Failed,
}

/// Whether a step that ended with `status` lets the plan go on. A backing
/// file that is already gone at cleanup is tolerated; every other failure
/// ends the plan.
pub fn status_accepted(op: WorkspaceOp, status: OpStatus) -> (r: bool)
    ensures
        r == (status == OpStatus::Done || (status == OpStatus::NotFound
            && op is RemoveFile)),
{
    match status {
        OpStatus::Done => true,
        OpStatus::NotFound => match op {
            WorkspaceOp::RemoveFile { .. } => true,
            _ => false,
        },
        OpStatus::Failed => false,
    }
}

/// The workspace as the plan sees it: whether the directory exists, and the
/// size of each backing file in it, by worker index.
pub ghost struct DiskModel {
    pub dir: bool,
    pub files: Map<nat, nat>,
}

/// No directory and no files.
pub open spec fn bare_disk() -> DiskModel {
    DiskModel { dir: false, files: Map::empty() }
}

/// The workspace after one step that succeeded (or, for a removal, found
/// nothing to remove).
pub open spec fn apply_op(d: DiskModel, op: WorkspaceOp) -> DiskModel {
    match op {
        WorkspaceOp::CreateDir => DiskModel { dir: true, files: d.files },
        WorkspaceOp::CreateFile { worker } => DiskModel {
            dir: d.dir,
            files: d.files.insert(worker as nat, 0),
        },
        WorkspaceOp::AppendZeros { worker, len } => if d.files.contains_key(worker as nat) {
            DiskModel {
                dir: d.dir,
                files: d.files.insert(worker as nat, (d.files[worker as nat] + len) as nat),
            }
        } else {
            d
        },
        WorkspaceOp::RemoveFile { worker } => DiskModel {
            dir: d.dir,
            files: d.files.remove(worker as nat),
        },
        WorkspaceOp::RemoveDir => DiskModel { dir: false, files: d.files },
    }
}

/// The workspace after the steps `ops`, in order.
pub open spec fn run_ops(d: DiskModel, ops: Seq<WorkspaceOp>) -> DiskModel
    decreases ops.len(),
{
    if ops.len() == 0 {
        d
    } else {
        apply_op(run_ops(d, ops.drop_last()), ops.last())
    }
}

/// The number of chunks of `chunk` bytes that make a file of at least
/// `size` bytes: `size / chunk`, rounded up.
pub open spec fn chunk_count(size: nat, chunk: nat) -> nat
    recommends
        chunk > 0,
{
    if size % chunk == 0 {
        size / chunk
    } else {
        size / chunk + 1
    }
}

/// `k` appends of `len` zero bytes to worker `w`'s file.
pub open spec fn appends(w: usize, k: nat, len: u64) -> Seq<WorkspaceOp> {
    Seq::new(k, |i: int| WorkspaceOp::AppendZeros { worker: w, len: len })
}

/// Creating worker `w`'s file and filling it with `k` chunks of `len` bytes.
pub open spec fn file_ops(w: usize, k: nat, len: u64) -> Seq<WorkspaceOp> {
    seq![WorkspaceOp::CreateFile { worker: w }] + appends(w, k, len)
}

/// Creating and filling the files of workers `0 .. n`, in order.
pub open spec fn files_ops(n: usize, k: nat, len: u64) -> Seq<WorkspaceOp>
    decreases n,
{
    if n == 0 {
        Seq::empty()
    } else {
        files_ops((n - 1) as usize, k, len) + file_ops((n - 1) as usize, k, len)
    }
}

/// The plan that builds the workspace: the directory, then each worker's
/// file, filled chunk by chunk.
pub open spec fn setup_ops(workers: usize, file_size: u64, chunk: u64) -> Seq<WorkspaceOp> {
    seq![WorkspaceOp::CreateDir] + files_ops(workers, chunk_count(file_size as nat, chunk as nat), chunk)
}

/// Removing the files of workers `0 .. m`, in order.
pub open spec fn removals(m: nat) -> Seq<WorkspaceOp> {
    Seq::new(m, |w: int| WorkspaceOp::RemoveFile { worker: w as usize })
}

/// The plan that reclaims the workspace: each worker's file, then the
/// directory.
pub open spec fn cleanup_ops(workers: usize) -> Seq<WorkspaceOp> {
    removals(workers as nat) + seq![WorkspaceOp::RemoveDir]
}

/// The number of chunks written to each backing file.
pub fn chunks_per_file(file_size: u64, chunk_size: u64) -> (r: u64)
    requires
        chunk_size > 0,
    ensures
        r == chunk_count(file_size as nat, chunk_size as nat),
{
    let q = file_size / chunk_size;
    if file_size % chunk_size == 0 {
        q
    } else {
        assert(q < file_size) by (nonlinear_arith)
            requires
                q == file_size / chunk_size,
                chunk_size > 0,
                file_size % chunk_size != 0,
        ;
        q + 1
    }
}

/// The steps that build a workspace of `workers` backing files of at least
/// `file_size` bytes each, written in chunks of `chunk_size` zero bytes.
pub fn setup_plan(workers: usize, file_size: u64, chunk_size: u64) -> (r: Vec<WorkspaceOp>)
    requires
        chunk_size > 0,
    ensures
        r@ == setup_ops(workers, file_size, chunk_size),
{
    let k = chunks_per_file(file_size, chunk_size);
    let ghost kk = k as nat;
    let mut ops: Vec<WorkspaceOp> = Vec::new();
    ops.push(WorkspaceOp::CreateDir);
    let mut w: usize = 0;
    while w < workers
        invariant
            w <= workers,
            kk == chunk_count(file_size as nat, chunk_size as nat),
            k == kk,
            ops@ == seq![WorkspaceOp::CreateDir] + files_ops(w, kk, chunk_size),
        decreases workers - w,
    {
        let ghost before = ops@;
        ops.push(WorkspaceOp::CreateFile { worker: w });
        let mut c: u64 = 0;
        while c < k
            invariant
                c <= k,
                k == kk,
                ops@ == before + seq![WorkspaceOp::CreateFile { worker: w }] + appends(
                    w,
                    c as nat,
                    chunk_size,
                ),
            decreases k - c,
        {
            ops.push(WorkspaceOp::AppendZeros { worker: w, len: chunk_size });
            c = c + 1;
            assert(ops@ =~= before + seq![WorkspaceOp::CreateFile { worker: w }] + appends(
                w,
                c as nat,
                chunk_size,
            ));
        }
        assert(files_ops((w + 1) as usize, kk, chunk_size) == files_ops(w, kk, chunk_size)
            + file_ops(w, kk, chunk_size));
        w = w + 1;
        assert(ops@ =~= seq![WorkspaceOp::CreateDir] + files_ops(w, kk, chunk_size));
    }
    ops
}

/// The steps that reclaim a workspace of `workers` backing files.
pub fn cleanup_plan(workers: usize) -> (r: Vec<WorkspaceOp>)
    ensures
        r@ == cleanup_ops(workers),
{
    let mut ops: Vec<WorkspaceOp> = Vec::new();
    let mut w: usize = 0;
    while w < workers
        invariant
            w <= workers,
            ops@ == removals(w as nat),
        decreases workers - w,
    {
        ops.push(WorkspaceOp::RemoveFile { worker: w });
        w = w + 1;
        assert(ops@ =~= removals(w as nat));
    }
    ops.push(WorkspaceOp::RemoveDir);
    assert(ops@ =~= cleanup_ops(workers));
    ops
}

proof fn lemma_run_single(d: DiskModel, op: WorkspaceOp)
    ensures
        run_ops(d, seq![op]) == apply_op(d, op),
{
    assert(seq![op].drop_last() =~= Seq::<WorkspaceOp>::empty());
    assert(seq![op].last() == op);
    assert(run_ops(d, Seq::<WorkspaceOp>::empty()) == d);
}

proof fn lemma_run_concat(d: DiskModel, a: Seq<WorkspaceOp>, b: Seq<WorkspaceOp>)
    ensures
        run_ops(d, a + b) == run_ops(run_ops(d, a), b),
    decreases b.len(),
{
    if b.len() == 0 {
        assert(a + b =~= a);
    } else {
        assert((a + b).drop_last() =~= a + b.drop_last());
        assert((a + b).last() == b.last());
        lemma_run_concat(d, a, b.drop_last());
    }
}

proof fn lemma_appends(d: DiskModel, w: usize, k: nat, len: u64)
    requires
        d.files.contains_key(w as nat),
    ensures
        run_ops(d, appends(w, k, len)) == (DiskModel {
            dir: d.dir,
            files: d.files.insert(w as nat, d.files[w as nat] + k * (len as nat)),
        }),
    decreases k,
{
    if k == 0 {
        assert(d.files.insert(w as nat, d.files[w as nat] + k * (len as nat)) =~= d.files) by {
            assert(k * (len as nat) == 0) by (nonlinear_arith)
                requires
                    k == 0,
            ;
        }
    } else {
        let j = (k - 1) as nat;
        assert(appends(w, k, len).drop_last() =~= appends(w, j, len));
        lemma_appends(d, w, j, len);
        assert(j * (len as nat) + len == k * (len as nat)) by (nonlinear_arith)
            requires
                j == k - 1,
        ;
        let mid = run_ops(d, appends(w, j, len));
        assert(mid.files.insert(w as nat, (mid.files[w as nat] + len) as nat) =~= d.files.insert(
            w as nat,
            d.files[w as nat] + k * (len as nat),
        ));
    }
}

proof fn lemma_file_ops(d: DiskModel, w: usize, k: nat, len: u64)
    ensures
        run_ops(d, file_ops(w, k, len)) == (DiskModel {
            dir: d.dir,
            files: d.files.insert(w as nat, k * (len as nat)),
        }),
{
    let created = seq![WorkspaceOp::CreateFile { worker: w }];
    lemma_run_concat(d, created, appends(w, k, len));
    lemma_run_single(d, WorkspaceOp::CreateFile { worker: w });
    let c = run_ops(d, created);
    assert(c == DiskModel { dir: d.dir, files: d.files.insert(w as nat, 0) });
    lemma_appends(c, w, k, len);
    assert(c.files.insert(w as nat, c.files[w as nat] + k * (len as nat)) =~= d.files.insert(
        w as nat,
        k * (len as nat),
    ));
}

proof fn lemma_files_ops(n: usize, k: nat, len: u64)
    ensures
        run_ops(DiskModel { dir: true, files: Map::empty() }, files_ops(n, k, len)) == (DiskModel {
            dir: true,
            files: Map::new(|x: nat| x < n as nat, |x: nat| k * (len as nat)),
        }),
    decreases n,
{
    let start = DiskModel { dir: true, files: Map::empty() };
    if n == 0 {
        assert(Map::new(|x: nat| x < n as nat, |x: nat| k * (len as nat)) =~= Map::<nat, nat>::empty());
    } else {
        let m = (n - 1) as usize;
        lemma_files_ops(m, k, len);
        lemma_run_concat(start, files_ops(m, k, len), file_ops(m, k, len));
        lemma_file_ops(run_ops(start, files_ops(m, k, len)), m, k, len);
        assert(Map::new(|x: nat| x < m as nat, |x: nat| k * (len as nat)).insert(m as nat, k * (len as nat)) =~= Map::new(
            |x: nat| x < n as nat,
            |x: nat| k * (len as nat),
        ));
    }
}

proof fn lemma_removals(d: DiskModel, m: nat)
    requires
        m <= usize::MAX + 1,
    ensures
        run_ops(d, removals(m)) == (DiskModel {
            dir: d.dir,
            files: d.files.remove_keys(Set::new(|x: nat| x < m)),
        }),
    decreases m,
{
    if m == 0 {
        assert(d.files.remove_keys(Set::new(|x: nat| x < m)) =~= d.files);
    } else {
        let j = (m - 1) as nat;
        assert(removals(m).drop_last() =~= removals(j));
        lemma_removals(d, j);
        assert(d.files.remove_keys(Set::new(|x: nat| x < j)).remove(j) =~= d.files.remove_keys(
            Set::new(|x: nat| x < m),
        ));
    }
}

/// Building the workspace leaves the directory in place with one backing
/// file for each worker and no other, each at least `file_size` bytes long.
pub proof fn setup_fills_every_file(workers: usize, file_size: u64, chunk: u64)
    requires
        chunk > 0,
    ensures
        ({
            let d = run_ops(bare_disk(), setup_ops(workers, file_size, chunk));
            &&& d.dir
            &&& forall|w: nat| #[trigger] d.files.contains_key(w) <==> w < workers
            &&& forall|w: nat| w < workers ==> #[trigger] d.files[w] >= file_size
        }),
{
    let k = chunk_count(file_size as nat, chunk as nat);
    let created = seq![WorkspaceOp::CreateDir];
    lemma_run_concat(bare_disk(), created, files_ops(workers, k, chunk));
    lemma_run_single(bare_disk(), WorkspaceOp::CreateDir);
    assert(run_ops(bare_disk(), created) == DiskModel { dir: true, files: Map::<nat, nat>::empty() });
    lemma_files_ops(workers, k, chunk);
    assert(k * (chunk as nat) >= file_size) by (nonlinear_arith)
        requires
            chunk > 0,
            k == (if (file_size as nat) % (chunk as nat) == 0 {
                (file_size as nat) / (chunk as nat)
            } else {
                (file_size as nat) / (chunk as nat) + 1
            }),
    ;
}

/// Reclaiming the workspace of `workers` leaves neither the directory nor
/// any backing file, whichever of the workers' files were still there.
pub proof fn cleanup_clears_workspace(d: DiskModel, workers: usize)
    requires
        forall|w: nat| #[trigger] d.files.contains_key(w) ==> w < workers,
    ensures
        run_ops(d, cleanup_ops(workers)) == bare_disk(),
{
    let removed = removals(workers as nat);
    lemma_run_concat(d, removed, seq![WorkspaceOp::RemoveDir]);
    lemma_removals(d, workers as nat);
    let e = run_ops(d, removed);
    assert(e.files =~= Map::<nat, nat>::empty());
    lemma_run_single(e, WorkspaceOp::RemoveDir);
    assert(run_ops(e, seq![WorkspaceOp::RemoveDir]) == DiskModel { dir: false, files: e.files });
}

/// Reclaiming a workspace that was built for `workers` leaves neither the
/// directory nor any backing file.
pub proof fn cleanup_after_setup_clears_all(workers: usize, file_size: u64, chunk: u64)
    requires
        chunk > 0,
    ensures
        run_ops(
            run_ops(bare_disk(), setup_ops(workers, file_size, chunk)),
            cleanup_ops(workers),
        ) == bare_disk(),
{
    setup_fills_every_file(workers, file_size, chunk);
    cleanup_clears_workspace(run_ops(bare_disk(), setup_ops(workers, file_size, chunk)), workers);
}

} // verus!
