use vstd::prelude::*;

verus! {

/// The directory that holds the backing files.
pub const WORKSPACE_DIR: &'static str = "io_test_dir";

/// The stem of each backing file's name; the worker's index follows it.
pub const FILE_STEM: &'static str = "io_test_file";

/// The number of workers, one backing file each.
pub const WORKER_COUNT: usize = 3;

/// The target size of each backing file: 128 MiB.
pub const FILE_SIZE_BYTES: u64 = 134_217_728;

/// The size of a chunk written at setup, and of the read buffer: 8 MiB.
pub const CHUNK_SIZE_BYTES: u64 = 8_388_608;

/// The length of a reporting interval in milliseconds.
pub const REPORT_INTERVAL_MS: u64 = 5_000;

/// How long an idle worker pauses between two polls of the flags.
pub const IDLE_PAUSE_MS: u64 = 5;

/// The record that one write appends to a backing file.
pub const LOG_RECORD: &'static str = "Some additional data...\n";

/// The character that stands for the decimal digit `d`.
pub open spec fn digit_char(d: nat) -> char {
    if d == 0 {
        '0'
    } else if d == 1 {
        '1'
    } else if d == 2 {
        '2'
    } else if d == 3 {
        '3'
    } else if d == 4 {
        '4'
    } else if d == 5 {
        '5'
    } else if d == 6 {
        '6'
    } else if d == 7 {
        '7'
    } else if d == 8 {
        '8'
    } else {
        '9'
    }
}

/// `n` written in decimal, with no sign and no leading zeros.
pub open spec fn decimal(n: nat) -> Seq<char>
    decreases n,
{
    if n < 10 {
        seq![digit_char(n)]
    } else {
        decimal(n / 10) + seq![digit_char(n % 10)]
    }
}

/// Relies on `format!` writing a string as it is and a `usize` as its
/// decimal digits, with no sign or padding.
#[verifier::external_body]
fn numbered_name(stem: &str, n: usize) -> (r: String)
    ensures
        r@ == stem@ + seq!['_'] + decimal(n as nat),
{
    format!("{}_{}", stem, n)
}

/// The name of worker `worker_id`'s backing file inside the workspace
/// directory: the stem, an underscore and the index, so that cleanup finds
/// every file again from the index alone.
pub fn backing_file_name(worker_id: usize) -> (r: String)
    ensures
        r@ == FILE_STEM@ + seq!['_'] + decimal(worker_id as nat),
{
    numbered_name(FILE_STEM, worker_id)
}

} // verus!
