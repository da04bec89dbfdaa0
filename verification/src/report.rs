//! The decisions the command-line front end makes: when to print the usage
//! line, how many pool workers to start, and how a byte total reads in
//! gigabytes with two decimal places.

use vstd::prelude::*;

verus! {

/// The usage line printed when no log directory is named.
pub open spec fn usage_line() -> Seq<char> {
    "Usage: log_size_rust <path-to-log-directory>"@
}

/// The usage line printed when no log directory is named.
pub fn usage_message() -> (r: &'static str)
    ensures
        r@ == usage_line(),
{
    "Usage: log_size_rust <path-to-log-directory>"
}

/// A run with fewer than two arguments (program name included) has no log
/// directory to scan and only prints the usage line.
pub fn should_print_usage(arg_count: usize) -> (r: bool)
    ensures
        r == (arg_count < 2),
{
    arg_count < 2
}

/// The size of the bounded worker pool: one worker per file, at most six.
pub fn worker_count(file_count: usize) -> (r: usize)
    ensures
        r == if file_count < 6 { file_count as int } else { 6int },
{
    if file_count < 6 {
        file_count
    } else {
        6
    }
}

/// `bytes` in hundredths of a gigabyte (1 GB = 1000^3 bytes), rounded to
/// the nearest hundredth, half up.
pub open spec fn gb_hundredths(bytes: int) -> int {
    (bytes + 5_000_000) / 10_000_000
}

/// Splits a byte total into whole gigabytes and hundredths of a gigabyte,
/// rounded to the nearest hundredth, half up: printing the two parts with
/// a dot between them shows the total in GB with two decimal places.
pub fn gb_display_parts(bytes: i64) -> (r: (u64, u64))
    requires
        0 <= bytes,
    ensures
        r.0 == gb_hundredths(bytes as int) / 100,
        r.1 == gb_hundredths(bytes as int) % 100,
        0 <= r.1 < 100,
{
    let wide: u128 = bytes as u128;
    let hundredths: u128 = (wide + 5_000_000) / 10_000_000;
    ((hundredths / 100) as u64, (hundredths % 100) as u64)
}

} // verus!
