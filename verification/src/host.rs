use crate::timestamp::{clamped_timestamp, Timestamp};
use vstd::prelude::*;

verus! {

/// Relies on `chrono::Local::now` and the `chrono::Datelike` /
/// `chrono::Timelike` accessors for the local wall-clock time. Those
/// accessors document their ranges: month 1..=12, day 1..=31, hour 0..=23,
/// minute 0..=59, second 0..=59. Nothing is promised of the year: the clock
/// decides it.
#[verifier::external_body]
fn clock_now_parts() -> (r: (i32, u32, u32, u32, u32, u32))
    ensures
        1 <= r.1 <= 12,
        1 <= r.2 <= 31,
        r.3 <= 23,
        r.4 <= 59,
        r.5 <= 59,
{
    let t = chrono::Local::now();
    (
        chrono::Datelike::year(&t),
        chrono::Datelike::month(&t),
        chrono::Datelike::day(&t),
        chrono::Timelike::hour(&t),
        chrono::Timelike::minute(&t),
        chrono::Timelike::second(&t),
    )
}

/// Relies on `std::path::absolute`: it resolves a path lexically against the
/// current working directory without touching the filesystem, fails on an
/// empty path, and otherwise returns an absolute path, which on this family
/// of platforms begins with `/`. `None` also covers a result that is not
/// valid UTF-8.
#[verifier::external_body]
pub(crate) fn absolute_path_string(path: &str) -> (r: Option<String>)
    ensures
        path@.len() == 0 ==> r is None,
        r matches Some(p) ==> p@.len() > 0 && p@[0] == '/',
{
    match std::path::absolute(path) {
        Ok(p) => p.to_str().map(|s| s.to_string()),
        Err(_) => None,
    }
}

/// Reads the host clock and returns it as a well-formed timestamp. The
/// clock alone decides the value; each field outside its calendar range
/// would be clamped into it.
pub fn now_timestamp() -> (ts: Timestamp)
    ensures
        ts.wf(),
{
    let (year, month, day, hour, minute, second) = clock_now_parts();
    clamped_timestamp(year, month, day, hour, minute, second)
}

} // verus!
