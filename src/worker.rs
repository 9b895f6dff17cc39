use vstd::prelude::*;

verus! {

/// What a worker does in one iteration of its loop, decided afresh from a
/// snapshot of the mode flags.
#[derive(PartialEq, Eq, Structural, Clone, Copy, Debug)]
pub enum Phase {
    /// Running, with reading and writing both off: the worker only polls.
    Idle,
    Reading,
    Writing,
    ReadingAndWriting,
    /// The running flag was seen off: the loop ends.
    Stopped,
}

impl Phase {
    pub open spec fn spec_reads(&self) -> bool {
        *self == Phase::Reading || *self == Phase::ReadingAndWriting
    }

    pub open spec fn spec_writes(&self) -> bool {
        *self == Phase::Writing || *self == Phase::ReadingAndWriting
    }

    /// Whether a read of the backing file takes place in this phase.
    #[verifier::when_used_as_spec(spec_reads)]
    pub fn reads(&self) -> (r: bool)
        ensures
            r == self.spec_reads(),
    {
        match self {
            Phase::Reading | Phase::ReadingAndWriting => true,
            _ => false,
        }
    }

    /// Whether an append to the backing file takes place in this phase.
    #[verifier::when_used_as_spec(spec_writes)]
    pub fn writes(&self) -> (r: bool)
        ensures
            r == self.spec_writes(),
    {
        match self {
            Phase::Writing | Phase::ReadingAndWriting => true,
            _ => false,
        }
    }
}

/// The phase of an iteration that saw the three flags as given. Every
/// combination is handled; a stopped worker does no I/O whatever the other
/// two flags say.
pub fn phase_of(running: bool, read_enabled: bool, write_enabled: bool) -> (p: Phase)
    ensures
        !running <==> p == Phase::Stopped,
        running ==> (p.reads() == read_enabled && p.writes() == write_enabled),
        running && !read_enabled && !write_enabled ==> p == Phase::Idle,
        running && read_enabled && !write_enabled ==> p == Phase::Reading,
        running && !read_enabled && write_enabled ==> p == Phase::Writing,
        running && read_enabled && write_enabled ==> p == Phase::ReadingAndWriting,
{
    if !running {
        Phase::Stopped
    } else if read_enabled && write_enabled {
        Phase::ReadingAndWriting
    } else if read_enabled {
        Phase::Reading
    } else if write_enabled {
        Phase::Writing
    } else {
        Phase::Idle
    }
}

/// The read cursor after a read of `n` bytes at `cursor` in a file of
/// `size` bytes: it moves on by `n`, and goes back to the start when it
/// would reach the end or when the read found the end of the file.
pub open spec fn next_cursor(cursor: nat, n: nat, size: nat) -> nat {
    if n == 0 || cursor + n >= size {
        0
    } else {
        cursor + n
    }
}

/// `a + b`, held at the largest `u64`.
pub open spec fn saturated_sum(a: nat, b: nat) -> nat {
    if a + b > u64::MAX {
        u64::MAX as nat
    } else {
        a + b
    }
}

/// Bytes per second for `bytes` moved in `elapsed_ms` milliseconds, rounded
/// down.
pub open spec fn rate_of(bytes: nat, elapsed_ms: nat) -> nat
    recommends
        elapsed_ms > 0,
{
    bytes * 1000 / elapsed_ms
}

/// Whether a report is due at `now_ms` when the last one was at
/// `last_ms`: at least `interval_ms` have gone by.
pub fn report_due(last_ms: u64, now_ms: u64, interval_ms: u64) -> (r: bool)
    ensures
        r == (now_ms >= last_ms && now_ms - last_ms >= interval_ms),
{
    now_ms >= last_ms && now_ms - last_ms >= interval_ms
}

/// One worker's throughput over a reporting interval.
#[derive(PartialEq, Eq, Structural, Clone, Copy, Debug)]
pub struct Report {
    pub worker_id: usize,
    /// The length of the interval in milliseconds.
    pub elapsed_ms: u64,
    /// Bytes read per second over the interval.
    pub read_rate: u128,
    /// Bytes written per second over the interval.
    pub write_rate: u128,
}

/// The private counters of one worker: bytes moved since the last report,
/// where the next read starts, and when the last report was made.
pub struct IoWorker {
    pub worker_id: usize,
    /// The target size of the backing file; the read cursor stays below it.
    pub file_size: u64,
    /// The size of the read buffer: the most that one read returns.
    pub read_len: u64,
    /// The length of a reporting interval in milliseconds.
    pub interval_ms: u64,
    pub bytes_read: u64,
    pub bytes_written: u64,
    pub read_cursor: u64,
    pub last_report_ms: u64,
}

impl IoWorker {
    /// Sizes and interval are positive, and the cursor lies in the file.
    pub open spec fn wf(&self) -> bool {
        &&& self.file_size > 0
        &&& self.read_len > 0
        &&& self.interval_ms > 0
        &&& self.read_cursor < self.file_size
    }

    /// A worker that starts at `now_ms` with no bytes counted and the cursor
    /// at the start of its file.
    pub fn new(worker_id: usize, file_size: u64, read_len: u64, interval_ms: u64, now_ms: u64) -> (w:
        IoWorker)
        requires
            file_size > 0,
            read_len > 0,
            interval_ms > 0,
        ensures
            w.wf(),
            w.worker_id == worker_id,
            w.file_size == file_size,
            w.read_len == read_len,
            w.interval_ms == interval_ms,
            w.bytes_read == 0,
            w.bytes_written == 0,
            w.read_cursor == 0,
            w.last_report_ms == now_ms,
    {
        IoWorker {
            worker_id,
            file_size,
            read_len,
            interval_ms,
            bytes_read: 0,
            bytes_written: 0,
            read_cursor: 0,
            last_report_ms: now_ms,
        }
    }

    /// Counts a read that returned `n` bytes at the cursor and moves the
    /// cursor on, wrapping it to the start at the end of the file.
    pub fn record_read(&mut self, n: u64)
        requires
            old(self).wf(),
            n <= old(self).read_len,
        ensures
            final(self).wf(),
            final(self).bytes_read == saturated_sum(old(self).bytes_read as nat, n as nat),
            final(self).read_cursor == next_cursor(
                old(self).read_cursor as nat,
                n as nat,
                old(self).file_size as nat,
            ),
            final(self).bytes_written == old(self).bytes_written,
            final(self).last_report_ms == old(self).last_report_ms,
            final(self).worker_id == old(self).worker_id,
            final(self).file_size == old(self).file_size,
            final(self).read_len == old(self).read_len,
            final(self).interval_ms == old(self).interval_ms,
    {
        self.bytes_read = self.bytes_read.saturating_add(n);
        if n == 0 || n >= self.file_size - self.read_cursor {
            self.read_cursor = 0;
        } else {
            self.read_cursor = self.read_cursor + n;
        }
    }

    /// Counts an append that wrote `n` bytes.
    pub fn record_write(&mut self, n: u64)
        requires
            old(self).wf(),
        ensures
            final(self).wf(),
            final(self).bytes_written == saturated_sum(old(self).bytes_written as nat, n as nat),
            final(self).bytes_read == old(self).bytes_read,
            final(self).read_cursor == old(self).read_cursor,
            final(self).last_report_ms == old(self).last_report_ms,
            final(self).worker_id == old(self).worker_id,
            final(self).file_size == old(self).file_size,
            final(self).read_len == old(self).read_len,
            final(self).interval_ms == old(self).interval_ms,
    {
        self.bytes_written = self.bytes_written.saturating_add(n);
    }

    /// At `now_ms`, makes the report when one is due: the rates of the bytes
    /// counted over the time elapsed since the last report. The counters then
    /// start again from zero and the report time becomes `now_ms`. When no
    /// report is due nothing changes.
    pub fn take_report(&mut self, now_ms: u64) -> (r: Option<Report>)
        requires
            old(self).wf(),
        ensures
            final(self).wf(),
            final(self).read_cursor == old(self).read_cursor,
            final(self).worker_id == old(self).worker_id,
            final(self).file_size == old(self).file_size,
            final(self).read_len == old(self).read_len,
            final(self).interval_ms == old(self).interval_ms,
            !(now_ms >= old(self).last_report_ms && now_ms - old(self).last_report_ms
                >= old(self).interval_ms) ==> r is None && *final(self) == *old(self),
            now_ms >= old(self).last_report_ms && now_ms - old(self).last_report_ms
                >= old(self).interval_ms ==> {
                &&& r == Some(
                    Report {
                        worker_id: old(self).worker_id,
                        elapsed_ms: (now_ms - old(self).last_report_ms) as u64,
                        read_rate: rate_of(
                            old(self).bytes_read as nat,
                            (now_ms - old(self).last_report_ms) as nat,
                        ) as u128,
                        write_rate: rate_of(
                            old(self).bytes_written as nat,
                            (now_ms - old(self).last_report_ms) as nat,
                        ) as u128,
                    },
                )
                &&& final(self).bytes_read == 0
                &&& final(self).bytes_written == 0
                &&& final(self).last_report_ms == now_ms
            },
    {
        if !report_due(self.last_report_ms, now_ms, self.interval_ms) {
            return None;
        }
        let elapsed = now_ms - self.last_report_ms;
        let read_rate = (self.bytes_read as u128) * 1000 / (elapsed as u128);
        let write_rate = (self.bytes_written as u128) * 1000 / (elapsed as u128);
        let report = Report { worker_id: self.worker_id, elapsed_ms: elapsed, read_rate, write_rate };
        self.bytes_read = 0;
        self.bytes_written = 0;
        self.last_report_ms = now_ms;
        Some(report)
    }
}

/// The read cursor after `k` reads of `len` bytes each, starting at the
/// start of a file of `size` bytes.
pub open spec fn cursor_after(k: nat, len: nat, size: nat) -> nat
    decreases k,
{
    if k == 0 {
        0
    } else {
        next_cursor(cursor_after((k - 1) as nat, len, size), len, size)
    }
}

/// The number of full reads of `len` bytes that take the cursor through a
/// file of `size` bytes and back to its start.
pub open spec fn reads_per_cycle(len: nat, size: nat) -> nat
    recommends
        len > 0,
{
    (size + (len - 1) as nat) / len
}

proof fn lemma_cursor_prefix(k: nat, len: nat, size: nat)
    requires
        len > 0,
        k * len < size,
    ensures
        cursor_after(k, len, size) == k * len,
    decreases k,
{
    if k > 0 {
        let j = (k - 1) as nat;
        assert(j * len + len == k * len) by (nonlinear_arith)
            requires
                j == k - 1,
        ;
        assert(j * len <= k * len) by (nonlinear_arith)
            requires
                j == k - 1,
                len > 0,
        ;
        lemma_cursor_prefix(j, len, size);
        assert(cursor_after(k, len, size) == next_cursor(cursor_after(j, len, size), len, size));
    } else {
        assert(k * len == 0) by (nonlinear_arith)
            requires
                k == 0,
        ;
    }
}

/// Reads of a fixed length move the cursor forward, one read's length at a
/// time, for as long as it stays inside the file; the read that would take
/// it to the end or past it brings it back to exactly the start.
pub proof fn read_cursor_cycle(len: nat, size: nat)
    requires
        len > 0,
        size > 0,
    ensures
        forall|k: nat|
            #![trigger cursor_after(k, len, size)]
            k * len < size ==> cursor_after(k, len, size) == k * len,
        forall|k: nat|
            #![trigger cursor_after(k + 1, len, size)]
            (k + 1) * len < size ==> cursor_after(k, len, size) < cursor_after(k + 1, len, size),
        reads_per_cycle(len, size) > 0,
        (reads_per_cycle(len, size) - 1) * len < size,
        cursor_after(reads_per_cycle(len, size), len, size) == 0,
{
    assert forall|k: nat| k * len < size implies cursor_after(k, len, size) == k * len by {
        lemma_cursor_prefix(k, len, size);
    }
    assert forall|k: nat| (k + 1) * len < size implies cursor_after(k, len, size) < #[trigger] cursor_after(
        k + 1,
        len,
        size,
    ) by {
        assert(k * len < (k + 1) * len) by (nonlinear_arith)
            requires
                len > 0,
        ;
        lemma_cursor_prefix(k, len, size);
        lemma_cursor_prefix(k + 1, len, size);
    }
    let m = reads_per_cycle(len, size);
    assert(m > 0 && (m - 1) * len < size && m * len >= size) by (nonlinear_arith)
        requires
            m == (size + (len - 1) as nat) / len,
            len > 0,
            size > 0,
    ;
    let j = (m - 1) as nat;
    lemma_cursor_prefix(j, len, size);
    assert(j * len + len == m * len) by (nonlinear_arith)
        requires
            j == m - 1,
    ;
}

/// The bytes counted by `k` appends of `n` bytes each, starting from
/// `start`.
pub open spec fn written_after(start: nat, k: nat, n: nat) -> nat
    decreases k,
{
    if k == 0 {
        start
    } else {
        saturated_sum(written_after(start, (k - 1) as nat, n), n)
    }
}

/// After `k` appends of a record of `n` bytes, counted from zero, the
/// written-byte counter holds exactly `k * n`, as long as that fits.
pub proof fn written_bytes_count(k: nat, n: nat)
    requires
        k * n <= u64::MAX,
    ensures
        written_after(0, k, n) == k * n,
    decreases k,
{
    if k > 0 {
        let j = (k - 1) as nat;
        assert(j * n + n == k * n && j * n <= k * n) by (nonlinear_arith)
            requires
                j == k - 1,
        ;
        written_bytes_count(j, n);
        assert(written_after(0, k, n) == saturated_sum(written_after(0, j, n), n));
    } else {
        assert(k * n == 0) by (nonlinear_arith)
            requires
                k == 0,
        ;
    }
}

} // verus!
