//! What the report learns of the machine it runs on: its name and the
//! local time.

use vstd::prelude::*;
use chrono::{Datelike, Timelike};
use crate::model::{CheckResult, LocalDateTime, SecurityReport, report_version, timestamp};

verus! {

/// Relies on chrono's `From<SystemTime> for DateTime<Local>`, which maps a
/// clock set before 1970 to a negative timestamp rather than failing, and on
/// its `Datelike`/`Timelike` accessors, which give the month in 1..=12, the
/// day in 1..=31, the hour in 0..=23 and the minute and second in 0..=59.
#[verifier::external_body]
fn local_now() -> (r: LocalDateTime)
    ensures
        r.wf(),
{
    let now = chrono::DateTime::<chrono::Local>::from(std::time::SystemTime::now());
    LocalDateTime {
        year: now.year(),
        month: now.month(),
        day: now.day(),
        hour: now.hour(),
        minute: now.minute(),
        second: now.second(),
    }
}

/// Relies on `whoami::hostname`, which lowercases the ASCII letters of the
/// host name it returns.
#[verifier::external_body]
#[allow(deprecated)]
fn host_name() -> (r: String)
    ensures
        forall|i: int| 0 <= i < r@.len() ==> !('A' <= #[trigger] r@[i] <= 'Z'),
{
    whoami::hostname()
}

impl SecurityReport {
    /// A report of `results`, stamped with this host's name, the local time
    /// and the schema version. `os` names the operating system.
    pub fn new(results: Vec<CheckResult>, os: String) -> (r: SecurityReport)
        ensures
            r.results == results,
            r.os == os,
            r.version@ == report_version(),
            forall|i: int|
                0 <= i < r.computer_name@.len() ==> !('A' <= #[trigger] r.computer_name@[i] <= 'Z'),
            exists|t: LocalDateTime| t.wf() && r.date_time@ == #[trigger] timestamp(t),
    {
        let at = local_now();
        SecurityReport::assemble(host_name(), &at, os, results)
    }
}

} // verus!
