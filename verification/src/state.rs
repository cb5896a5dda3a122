//! The telemetry state aggregate and its per-cycle update rules.
//!
//! Fields are replaced independently: a cycle that yields no reading of
//! a kind leaves that kind's stored reading untouched, and a stale or
//! missing file changes only the status tag and the timestamp.

use vstd::prelude::*;
use crate::extract::{extract_latest, spec_latest};
use crate::parse::{parse_telem_line, spec_mpu6050, spec_ms5611, spec_tmp_token};
use crate::reading::{zero_mpu6050, zero_ms5611, Mpu6050, Mpu6050View, Ms5611, Ms5611View};
use crate::tokens::{seq_views, spec_tokens};

verus! {

/// The source's status tag.
#[derive(Clone, Copy, Debug, PartialEq, Eq, Structural)]
pub enum Status {
    /// No cycle has run yet.
    Unknown,
    /// The file exists and was written recently.
    Live,
    /// The file exists but has not been written recently.
    Stale,
    /// The file does not exist.
    NoFile,
}

impl Status {
    /// The tag's wire label.
    pub fn label(&self) -> (r: String)
        ensures
            self is Unknown ==> r@ == ""@,
            self is Live ==> r@ == "live"@,
            self is Stale ==> r@ == "stale"@,
            self is NoFile ==> r@ == "no_file"@,
    {
        match self {
            Status::Unknown => String::from_str(""),
            Status::Live => String::from_str("live"),
            Status::Stale => String::from_str("stale"),
            Status::NoFile => String::from_str("no_file"),
        }
    }
}

/// Process-wide environment sample: CPU utilisation and an optional
/// hardware temperature, both as IEEE-754 bit patterns.
#[derive(Clone, Copy, Debug, PartialEq, Eq, Structural)]
pub struct SystemInfo {
    pub cpu_bits: u64,
    pub gpu_temp_bits: u64,
}

impl SystemInfo {
    /// The all-zero sample.
    pub fn zeroed() -> (r: SystemInfo)
        ensures
            r == (SystemInfo { cpu_bits: 0u64, gpu_temp_bits: 0u64 }),
    {
        SystemInfo { cpu_bits: 0, gpu_temp_bits: 0 }
    }
}

/// The current known telemetry: one aggregate, mutated only by the
/// polling cycle's update functions.
pub struct Telemetry {
    pub status: Status,
    pub timestamp: Option<String>,
    pub ms5611: Ms5611,
    pub mpu6050: Mpu6050,
    pub tmp: String,
    pub system: SystemInfo,
}

pub ghost struct TelemetryView {
    pub status: Status,
    pub timestamp: Option<Seq<char>>,
    pub ms5611: Ms5611View,
    pub mpu6050: Mpu6050View,
    pub tmp: Seq<char>,
    pub system: SystemInfo,
}

impl View for Telemetry {
    type V = TelemetryView;

    open spec fn view(&self) -> TelemetryView {
        TelemetryView {
            status: self.status,
            timestamp: match self.timestamp {
                Some(ref t) => Some(t@),
                None => None,
            },
            ms5611: self.ms5611@,
            mpu6050: self.mpu6050@,
            tmp: self.tmp@,
            system: self.system,
        }
    }
}

/// The zeroed aggregate a process starts from.
pub open spec fn spec_init_telemetry() -> TelemetryView {
    TelemetryView {
        status: Status::Unknown,
        timestamp: None,
        ms5611: zero_ms5611(),
        mpu6050: zero_mpu6050(),
        tmp: "0"@,
        system: SystemInfo { cpu_bits: 0u64, gpu_temp_bits: 0u64 },
    }
}

pub open spec fn spec_with_system(t: TelemetryView, sys: SystemInfo) -> TelemetryView {
    TelemetryView { system: sys, ..t }
}

pub open spec fn spec_mark_no_file(t: TelemetryView, ts: Seq<char>) -> TelemetryView {
    TelemetryView { status: Status::NoFile, timestamp: Some(ts), ..t }
}

pub open spec fn spec_mark_stale(t: TelemetryView, ts: Seq<char>) -> TelemetryView {
    TelemetryView { status: Status::Stale, timestamp: Some(ts), ..t }
}

/// The aggregate after a live cycle: status and timestamp renewed, and
/// each sensor kind replaced exactly when its most recent candidate
/// line yields a reading, else retained.
pub open spec fn spec_merge_lines(t: TelemetryView, ls: Seq<Seq<char>>, ts: Seq<char>) -> TelemetryView {
    TelemetryView {
        status: Status::Live,
        timestamp: Some(ts),
        ms5611: match spec_latest(ls, "MS5611"@) {
            Some(line) => match spec_ms5611(spec_tokens(line)) {
                Some(m) => m,
                None => t.ms5611,
            },
            None => t.ms5611,
        },
        mpu6050: match spec_latest(ls, "MPU6050"@) {
            Some(line) => match spec_mpu6050(spec_tokens(line)) {
                Some(m) => m,
                None => t.mpu6050,
            },
            None => t.mpu6050,
        },
        tmp: match spec_latest(ls, "TMP"@) {
            Some(line) => match spec_tmp_token(spec_tokens(line)) {
                Some(v) => v,
                None => t.tmp,
            },
            None => t.tmp,
        },
        system: t.system,
    }
}

impl Telemetry {
    /// The zeroed aggregate.
    pub fn new() -> (r: Telemetry)
        ensures
            r@ == spec_init_telemetry(),
    {
        Telemetry {
            status: Status::Unknown,
            timestamp: None,
            ms5611: Ms5611::zeroed(),
            mpu6050: Mpu6050::zeroed(),
            tmp: String::from_str("0"),
            system: SystemInfo::zeroed(),
        }
    }

    /// Record this cycle's environment sample; everything else is kept.
    pub fn apply_system(&mut self, sys: SystemInfo)
        ensures
            final(self)@ == spec_with_system(old(self)@, sys),
    {
        self.system = sys;
    }

    /// Record that the source file is missing; readings are kept.
    pub fn apply_no_file(&mut self, ts: String)
        ensures
            final(self)@ == spec_mark_no_file(old(self)@, ts@),
    {
        self.status = Status::NoFile;
        self.timestamp = Some(ts);
    }

    /// Record that the source file is stale; readings are kept.
    pub fn apply_stale(&mut self, ts: String)
        ensures
            final(self)@ == spec_mark_stale(old(self)@, ts@),
    {
        self.status = Status::Stale;
        self.timestamp = Some(ts);
    }

    /// Merge a live cycle: extract each kind's most recent candidate
    /// line, parse it, and replace exactly the kinds that yield a
    /// reading.
    pub fn apply_lines(&mut self, lines: &Vec<String>, ts: String)
        ensures
            final(self)@ == spec_merge_lines(old(self)@, seq_views(lines@), ts@),
    {
        let (lm, lp, lt) = extract_latest(lines);
        self.status = Status::Live;
        self.timestamp = Some(ts);
        match lm {
            Some(line) => {
                let (ms, _, _) = parse_telem_line(line.as_str());
                match ms {
                    Some(m) => {
                        self.ms5611 = m;
                    },
                    None => {},
                }
            },
            None => {},
        }
        match lp {
            Some(line) => {
                let (_, mp, _) = parse_telem_line(line.as_str());
                match mp {
                    Some(m) => {
                        self.mpu6050 = m;
                    },
                    None => {},
                }
            },
            None => {},
        }
        match lt {
            Some(line) => {
                let (_, _, tv) = parse_telem_line(line.as_str());
                match tv {
                    Some(v) => {
                        self.tmp = v;
                    },
                    None => {},
                }
            },
            None => {},
        }
    }
}

impl Default for Telemetry {
    /// The zeroed aggregate.
    fn default() -> (r: Telemetry)
        ensures
            r@ == spec_init_telemetry(),
    {
        Telemetry::new()
    }
}

} // verus!
