//! The freshness evaluator: classify the telemetry source from the
//! file's last-modified time and the current time, fail-open.

use vstd::prelude::*;

verus! {

/// Age beyond which the source file counts as stale, in seconds.
pub const STALE_TIMEOUT_SECS: u64 = 120;

/// The file's age in whole seconds: non-negative, and one second —
/// i.e. fresh — when the modification time could not be read.
pub open spec fn spec_file_age(now_secs: u64, modified_secs: Option<u64>) -> u64 {
    match modified_secs {
        None => 1u64,
        Some(m) => if now_secs >= m {
            (now_secs - m) as u64
        } else {
            0u64
        },
    }
}

/// What a poll cycle should do with the source file.
#[derive(Clone, Copy, Debug, PartialEq, Eq, Structural)]
pub enum CycleStep {
    /// The file does not exist: report and keep prior readings.
    ReportNoFile,
    /// The file has not been written recently: report and keep prior
    /// readings.
    ReportStale,
    /// The file is live: read it and merge its latest readings.
    ReadFile,
}

pub open spec fn spec_plan_cycle(file_exists: bool, now_secs: u64, modified_secs: Option<u64>) -> CycleStep {
    if !file_exists {
        CycleStep::ReportNoFile
    } else if spec_file_age(now_secs, modified_secs) > STALE_TIMEOUT_SECS {
        CycleStep::ReportStale
    } else {
        CycleStep::ReadFile
    }
}

/// The file's age in whole seconds, saturating and fail-open.
pub fn file_age(now_secs: u64, modified_secs: Option<u64>) -> (age: u64)
    ensures
        age == spec_file_age(now_secs, modified_secs),
{
    match modified_secs {
        None => 1,
        Some(m) => if now_secs >= m {
            now_secs - m
        } else {
            0
        },
    }
}

/// Decide a poll cycle's step from the file's existence and times.
pub fn plan_cycle(file_exists: bool, now_secs: u64, modified_secs: Option<u64>) -> (step: CycleStep)
    ensures
        step == spec_plan_cycle(file_exists, now_secs, modified_secs),
{
    if !file_exists {
        CycleStep::ReportNoFile
    } else if file_age(now_secs, modified_secs) > STALE_TIMEOUT_SECS {
        CycleStep::ReportStale
    } else {
        CycleStep::ReadFile
    }
}

} // verus!
