//! Wall-clock access for the run summary.
//!
//! The current local time is the one thing the library cannot compute itself:
//! it comes from chrono behind a trusted wrapper whose contract states only
//! the field bounds that chrono documents. Everything rendered from the
//! returned plain values is verified.

use vstd::prelude::*;
use chrono::Datelike;
use chrono::Timelike;

verus! {

/// One wall-clock reading, split into plain fields.
#[derive(Debug, Clone, Copy, PartialEq, Eq)]
pub struct ClockParts {
    /// Hour of the day, 0 to 23.
    pub hour: u8,
    /// Minute of the hour, 0 to 59.
    pub minute: u8,
    /// Second of the minute, 0 to 59.
    pub second: u8,
    /// Days since Monday, 0 to 6 (0 is Monday).
    pub weekday: u8,
    /// Day of the month, 1 to 31.
    pub day: u8,
    /// Month of the year, 1 to 12.
    pub month: u8,
    /// Calendar year.
    pub year: i32,
}

impl ClockParts {
    /// Every field is within its calendar range.
    pub open spec fn wf(&self) -> bool {
        &&& self.hour < 24
        &&& self.minute < 60
        &&& self.second < 60
        &&& self.weekday < 7
        &&& 1 <= self.day <= 31
        &&& 1 <= self.month <= 12
    }
}

/// Relies on chrono's `Local::now` and its `Timelike`, `Datelike` and
/// `Weekday` accessors: `hour` is 0 to 23, `minute` and `second` 0 to 59,
/// `num_days_from_monday` 0 to 6, `day` 1 to 31 and `month` 1 to 12, as
/// chrono documents. Which moment is read depends on the machine's clock, so
/// nothing more is stated.
#[verifier::external_body]
fn local_clock() -> (r: ClockParts)
    ensures
        r.wf(),
{
    let now = chrono::Local::now();
    ClockParts {
        hour: now.hour() as u8,
        minute: now.minute() as u8,
        second: now.second() as u8,
        weekday: now.weekday().num_days_from_monday() as u8,
        day: now.day() as u8,
        month: now.month() as u8,
        year: now.year(),
    }
}

/// One trailing record per run: when it completed, how long the whole run
/// took, and how many entries the enumeration found at the start.
#[derive(Debug, Clone, Copy)]
pub struct RunSummary {
    /// The wall-clock time at which the run completed.
    pub completed_at: ClockParts,
    /// Elapsed time for the whole run, in microseconds.
    pub total_micros: u64,
    /// Count of entries enumerated at the start of the run.
    pub files_processed: u64,
}

/// Builds the summary of a run that completes now: the completion time is
/// read from the wall clock, and the caller's duration and entry count are
/// kept as given.
pub fn run_summary_now(files_processed: u64, total_micros: u64) -> (s: RunSummary)
    ensures
        s.completed_at.wf(),
        s.total_micros == total_micros,
        s.files_processed == files_processed,
{
    RunSummary {
        completed_at: local_clock(),
        total_micros: total_micros,
        files_processed: files_processed,
    }
}

} // verus!
