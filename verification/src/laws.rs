//! The library's stated laws, as proof functions over the same spec
//! functions the executable contracts use.

use vstd::prelude::*;
use crate::extract::{spec_contains, spec_latest, spec_trim};
use crate::freshness::{spec_file_age, spec_plan_cycle, CycleStep, STALE_TIMEOUT_SECS};
use crate::numeric::is_numeric_token;
use crate::parse::{
    spec_find_token, spec_gps_altitude, spec_mpu6050, spec_ms5611, spec_tmp_or_zero,
    spec_tmp_token,
};
use crate::reading::{Mpu6050View, Ms5611View};
use crate::state::{
    spec_mark_no_file, spec_mark_stale, spec_merge_lines, spec_with_system, Status, SystemInfo,
    TelemetryView,
};
use crate::tokens::spec_tokens;

verus! {

/// A pressure-sensor marker followed by three numeric tokens yields a
/// reading holding exactly those tokens, in (temperature, pressure,
/// altitude) order.
pub proof fn lemma_ms5611_exact(toks: Seq<Seq<char>>, i: int)
    requires
        Some(i) == spec_find_token(toks, "MS5611"@, true),
        i + 3 < toks.len(),
        is_numeric_token(toks[i + 1]),
        is_numeric_token(toks[i + 2]),
        is_numeric_token(toks[i + 3]),
    ensures
        spec_ms5611(toks) == Some(
            Ms5611View { temp: toks[i + 1], pressure: toks[i + 2], altitude: toks[i + 3] },
        ),
{
}

/// A pressure-sensor marker with fewer than three following tokens
/// yields the fallback reading: the line's scalar-temperature token or
/// zero, the standard sea-level pressure, and the line's position-fix
/// altitude or zero.
pub proof fn lemma_ms5611_fallback(toks: Seq<Seq<char>>, i: int)
    requires
        Some(i) == spec_find_token(toks, "MS5611"@, true),
        i + 3 >= toks.len(),
    ensures
        spec_ms5611(toks) == Some(
            Ms5611View {
                temp: spec_tmp_or_zero(toks),
                pressure: "1013.25"@,
                altitude: spec_gps_altitude(toks),
            },
        ),
{
}

/// An inertial-sensor marker with fewer than six following tokens
/// yields no reading — absent, not zeroed.
pub proof fn lemma_mpu6050_absent_when_short(toks: Seq<Seq<char>>, i: int)
    requires
        Some(i) == spec_find_token(toks, "MPU6050"@, true),
        i + 6 >= toks.len(),
    ensures
        spec_mpu6050(toks) is None,
{
}

/// An inertial-sensor marker whose six following tokens include a
/// non-numeric one yields no reading — absent, not zeroed.
pub proof fn lemma_mpu6050_absent_when_invalid(toks: Seq<Seq<char>>, i: int, j: int)
    requires
        Some(i) == spec_find_token(toks, "MPU6050"@, true),
        i + 6 < toks.len(),
        i + 1 <= j <= i + 6,
        !is_numeric_token(toks[j]),
    ensures
        spec_mpu6050(toks) is None,
{
}

/// A cycle that finds the file stale reports staleness with a fresh
/// timestamp and retains every stored sensor reading unchanged.
pub proof fn lemma_stale_cycle_retains_readings(
    t: TelemetryView,
    ts: Seq<char>,
    now_secs: u64,
    modified_secs: Option<u64>,
)
    requires
        spec_file_age(now_secs, modified_secs) > STALE_TIMEOUT_SECS,
    ensures
        spec_plan_cycle(true, now_secs, modified_secs) == CycleStep::ReportStale,
        spec_mark_stale(t, ts).status == Status::Stale,
        spec_mark_stale(t, ts).timestamp == Some(ts),
        spec_mark_stale(t, ts).ms5611 == t.ms5611,
        spec_mark_stale(t, ts).mpu6050 == t.mpu6050,
        spec_mark_stale(t, ts).tmp == t.tmp,
        spec_mark_stale(t, ts).system == t.system,
{
}

/// A cycle that finds no file reports so with a fresh timestamp and
/// retains every stored sensor reading; the plan never asks for a read
/// — hence never parses — while the file is missing.
pub proof fn lemma_missing_file_cycle(
    t: TelemetryView,
    ts: Seq<char>,
    now_secs: u64,
    modified_secs: Option<u64>,
)
    ensures
        spec_plan_cycle(false, now_secs, modified_secs) == CycleStep::ReportNoFile,
        spec_mark_no_file(t, ts).status == Status::NoFile,
        spec_mark_no_file(t, ts).timestamp == Some(ts),
        spec_mark_no_file(t, ts).ms5611 == t.ms5611,
        spec_mark_no_file(t, ts).mpu6050 == t.mpu6050,
        spec_mark_no_file(t, ts).tmp == t.tmp,
        spec_mark_no_file(t, ts).system == t.system,
{
}

/// Scanning newest-first: when the most recent line is non-blank and
/// carries a marker, that line is the one selected for it, whatever
/// older lines hold.
pub proof fn lemma_latest_prefers_newest(lines: Seq<Seq<char>>, marker: Seq<char>)
    requires
        lines.len() > 0,
        spec_trim(lines.last()).len() > 0,
        spec_contains(spec_trim(lines.last()), marker),
    ensures
        spec_latest(lines, marker) == Some(spec_trim(lines.last())),
{
}

/// One cycle's full update — the environment sample, then the merge of
/// the file's latest readings — carries that same cycle's sample,
/// status and timestamp: a snapshot never pairs a newer merge with an
/// older cycle's sample.
pub proof fn lemma_cycle_snapshot_consistent(
    t: TelemetryView,
    sys: SystemInfo,
    ls: Seq<Seq<char>>,
    ts: Seq<char>,
)
    ensures
        spec_merge_lines(spec_with_system(t, sys), ls, ts).system == sys,
        spec_merge_lines(spec_with_system(t, sys), ls, ts).status == Status::Live,
        spec_merge_lines(spec_with_system(t, sys), ls, ts).timestamp == Some(ts),
{
}

proof fn lemma_tokens_of_pressure_line()
    ensures
        spec_tokens("MS5611 22.5 1000.0 310.0"@) == seq![
            "MS5611"@,
            "22.5"@,
            "1000.0"@,
            "310.0"@,
        ],
{
    reveal_strlit("MS5611 22.5 1000.0 310.0");
    reveal_strlit("MS5611");
    reveal_strlit("22.5");
    reveal_strlit("1000.0");
    reveal_strlit("310.0");
    reveal_with_fuel(crate::tokens::spec_tokens_from, 27);
    assert(spec_tokens("MS5611 22.5 1000.0 310.0"@) =~~= seq![
        "MS5611"@,
        "22.5"@,
        "1000.0"@,
        "310.0"@,
    ]);
}

proof fn lemma_tokens_of_inertial_line()
    ensures
        spec_tokens("MPU6050 0.1 0.2 0.3 9.8 0.0 0.1"@) == seq![
            "MPU6050"@,
            "0.1"@,
            "0.2"@,
            "0.3"@,
            "9.8"@,
            "0.0"@,
            "0.1"@,
        ],
{
    reveal_strlit("MPU6050 0.1 0.2 0.3 9.8 0.0 0.1");
    reveal_strlit("MPU6050");
    reveal_strlit("0.1");
    reveal_strlit("0.2");
    reveal_strlit("0.3");
    reveal_strlit("9.8");
    reveal_strlit("0.0");
    reveal_with_fuel(crate::tokens::spec_tokens_from, 34);
    assert(spec_tokens("MPU6050 0.1 0.2 0.3 9.8 0.0 0.1"@) =~~= seq![
        "MPU6050"@,
        "0.1"@,
        "0.2"@,
        "0.3"@,
        "9.8"@,
        "0.0"@,
        "0.1"@,
    ]);
}

proof fn lemma_example_tokens_are_numeric()
    ensures
        is_numeric_token("22.5"@),
        is_numeric_token("1000.0"@),
        is_numeric_token("310.0"@),
        is_numeric_token("0.1"@),
        is_numeric_token("0.2"@),
        is_numeric_token("0.3"@),
        is_numeric_token("9.8"@),
        is_numeric_token("0.0"@),
{
    reveal_strlit("22.5");
    reveal_strlit("1000.0");
    reveal_strlit("310.0");
    reveal_strlit("0.1");
    reveal_strlit("0.2");
    reveal_strlit("0.3");
    reveal_strlit("9.8");
    reveal_strlit("0.0");
    reveal_with_fuel(crate::numeric::spec_find_exp, 9);
    reveal_with_fuel(crate::numeric::spec_find_dot, 9);
}

proof fn lemma_pressure_line_has_no_inertial_marker()
    ensures
        !spec_contains("MS5611 22.5 1000.0 310.0"@, "MPU6050"@),
{
    reveal_strlit("MS5611 22.5 1000.0 310.0");
    reveal_strlit("MPU6050");
    let t = "MS5611 22.5 1000.0 310.0"@;
    let m = "MPU6050"@;
    assert forall|k: int| 0 <= k && k + m.len() <= t.len() implies #[trigger] t.subrange(
        k,
        k + m.len(),
    ) != m by {
        if k == 0 {
            assert(t.subrange(k, k + m.len())[1] == 'S');
        } else {
            assert(t.subrange(k, k + m.len())[0] == t[k]);
            assert(t[k] != 'M');
        }
    }
}

/// The worked three-line file: scanning newest-first, the merge takes
/// the pressure reading from the third line — its values win, not the
/// first line's — and the inertial reading from the second, and the
/// aggregate goes live.
pub proof fn lemma_newest_line_wins_example(t: TelemetryView, ts: Seq<char>)
    ensures
        ({
            let ls = seq![
                "MS5611 21.0 1001.2 305.0"@,
                "MPU6050 0.1 0.2 0.3 9.8 0.0 0.1"@,
                "MS5611 22.5 1000.0 310.0"@,
            ];
            let r = spec_merge_lines(t, ls, ts);
            &&& r.status == Status::Live
            &&& r.ms5611 == (Ms5611View { temp: "22.5"@, pressure: "1000.0"@, altitude: "310.0"@ })
            &&& r.mpu6050 == (Mpu6050View {
                gx: "0.1"@,
                gy: "0.2"@,
                gz: "0.3"@,
                ax: "9.8"@,
                ay: "0.0"@,
                az: "0.1"@,
            })
        }),
{
    let l1 = "MS5611 21.0 1001.2 305.0"@;
    let l2 = "MPU6050 0.1 0.2 0.3 9.8 0.0 0.1"@;
    let l3 = "MS5611 22.5 1000.0 310.0"@;
    let ls = seq![l1, l2, l3];
    reveal_strlit("MS5611 21.0 1001.2 305.0");
    reveal_strlit("MPU6050 0.1 0.2 0.3 9.8 0.0 0.1");
    reveal_strlit("MS5611 22.5 1000.0 310.0");
    reveal_strlit("MS5611");
    reveal_strlit("MPU6050");

    // The third line is selected for the pressure sensor.
    assert(spec_trim(l3) == l3);
    assert(l3.subrange(0, 0int + "MS5611"@.len()) =~= "MS5611"@);
    assert(spec_contains(l3, "MS5611"@));
    assert(spec_latest(ls, "MS5611"@) == Some(l3));

    // The third line carries no inertial marker, so the scan steps
    // back to the second, which does.
    lemma_pressure_line_has_no_inertial_marker();
    assert(spec_trim(l2) == l2);
    assert(l2.subrange(0, 0int + "MPU6050"@.len()) =~= "MPU6050"@);
    assert(spec_contains(l2, "MPU6050"@));
    reveal_with_fuel(crate::extract::spec_latest, 3);
    assert(ls.drop_last() =~= seq![l1, l2]);
    assert(spec_latest(ls, "MPU6050"@) == Some(l2));

    // Each selected line parses to exactly its own tokens.
    lemma_tokens_of_pressure_line();
    lemma_tokens_of_inertial_line();
    lemma_example_tokens_are_numeric();
    let toks3 = spec_tokens(l3);
    assert(toks3[0] == "MS5611"@);
    assert(spec_find_token(toks3, "MS5611"@, true) == Some(0int));
    assert(spec_ms5611(toks3) == Some(
        Ms5611View { temp: "22.5"@, pressure: "1000.0"@, altitude: "310.0"@ },
    ));
    let toks2 = spec_tokens(l2);
    assert(toks2[0] == "MPU6050"@);
    assert(spec_find_token(toks2, "MPU6050"@, true) == Some(0int));
    assert(spec_mpu6050(toks2) == Some(
        Mpu6050View {
            gx: "0.1"@,
            gy: "0.2"@,
            gz: "0.3"@,
            ax: "9.8"@,
            ay: "0.0"@,
            az: "0.1"@,
        },
    ));
}

/// The parser is pure: its whole result is a function of the line
/// alone, so parsing the same line twice yields identical output.
pub proof fn lemma_parser_pure(
    line: Seq<char>,
    a: (Option<Ms5611View>, Option<Mpu6050View>, Option<Seq<char>>),
    b: (Option<Ms5611View>, Option<Mpu6050View>, Option<Seq<char>>),
)
    requires
        a.0 == spec_ms5611(spec_tokens(line)),
        a.1 == spec_mpu6050(spec_tokens(line)),
        a.2 == spec_tmp_token(spec_tokens(line)),
        b.0 == spec_ms5611(spec_tokens(line)),
        b.1 == spec_mpu6050(spec_tokens(line)),
        b.2 == spec_tmp_token(spec_tokens(line)),
    ensures
        a == b,
{
}

} // verus!
