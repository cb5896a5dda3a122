//! The tolerant line parser: one log line in, independently-optional
//! sensor readings out.
//!
//! A marker token is recognised by exact match or by prefix match — a
//! token that starts with the marker counts — to tolerate decorated
//! marker tokens. Each marker consumes a fixed count of immediately
//! following numeric tokens. A pressure-sensor marker with fewer than
//! three following tokens falls back to a synthesized reading from the
//! line's scalar-temperature token (or zero), the standard sea-level
//! pressure, and the line's position-fix altitude (or zero).

use vstd::prelude::*;
use crate::numeric::{is_numeric_token, numeric_token};
use crate::reading::{opt_view, Ms5611, Ms5611View, Mpu6050, Mpu6050View};
use crate::text::{str_eq, str_starts_with};
use crate::tokens::{seq_views, spec_tokens, tokenize};

verus! {

/// Whether a token carries the marker: equal to it, or an extension of
/// it when prefix matching is allowed.
pub open spec fn token_matches(tok: Seq<char>, marker: Seq<char>, allow_prefix: bool) -> bool {
    tok == marker || (allow_prefix && marker.is_prefix_of(tok))
}

/// The position of the first token carrying the marker.
pub open spec fn spec_find_token(toks: Seq<Seq<char>>, marker: Seq<char>, allow_prefix: bool) -> Option<
    int,
>
    decreases toks.len(),
{
    if toks.len() == 0 {
        None
    } else if token_matches(toks[0], marker, allow_prefix) {
        Some(0)
    } else {
        shift_opt(spec_find_token(toks.drop_first(), marker, allow_prefix), 1)
    }
}

pub open spec fn shift_opt(o: Option<int>, k: int) -> Option<int> {
    match o {
        Some(j) => Some(j + k),
        None => None,
    }
}

fn match_token(tok: &str, marker: &str, allow_prefix: bool) -> (r: bool)
    ensures
        r == token_matches(tok@, marker@, allow_prefix),
{
    str_eq(tok, marker) || (allow_prefix && str_starts_with(tok, marker))
}

/// The position of the first token carrying the marker.
pub fn find_token(parts: &Vec<String>, marker: &str, allow_prefix: bool) -> (r: Option<usize>)
    ensures
        match r {
            Some(k) => k < parts@.len() && Some(k as int) == spec_find_token(
                seq_views(parts@),
                marker@,
                allow_prefix,
            ),
            None => spec_find_token(seq_views(parts@), marker@, allow_prefix) is None,
        },
{
    let ghost toks = seq_views(parts@);
    let n = parts.len();
    let mut i: usize = 0;
    proof {
        assert(toks.skip(0) =~= toks);
    }
    while i < n
        invariant
            n == toks.len(),
            n == parts@.len(),
            i <= n,
            toks == seq_views(parts@),
            spec_find_token(toks, marker@, allow_prefix) == shift_opt(
                spec_find_token(toks.skip(i as int), marker@, allow_prefix),
                i as int,
            ),
        decreases n - i,
    {
        let ghost suffix = toks.skip(i as int);
        proof {
            assert(suffix[0] == toks[i as int]);
            assert(suffix.drop_first() =~= toks.skip(i + 1));
            assert(toks[i as int] == parts@[i as int]@);
        }
        if match_token(parts[i].as_str(), marker, allow_prefix) {
            return Some(i);
        }
        i += 1;
    }
    proof {
        assert(toks.skip(n as int) =~= Seq::<Seq<char>>::empty());
    }
    None
}

/// The position of the first token equal to `token`, or starting with
/// it.
pub fn idx_token(parts: &Vec<String>, token: &str) -> (r: Option<usize>)
    ensures
        match r {
            Some(k) => k < parts@.len() && Some(k as int) == spec_find_token(
                seq_views(parts@),
                token@,
                true,
            ),
            None => spec_find_token(seq_views(parts@), token@, true) is None,
        },
{
    find_token(parts, token, true)
}

/// The scalar-temperature token of a line: the token after the first
/// scalar-temperature marker, when it is numeric.
pub open spec fn spec_tmp_token(toks: Seq<Seq<char>>) -> Option<Seq<char>> {
    match spec_find_token(toks, "TMP"@, true) {
        None => None,
        Some(i) => if i + 1 < toks.len() && is_numeric_token(toks[i + 1]) {
            Some(toks[i + 1])
        } else {
            None
        },
    }
}

/// The position-fix altitude token of a line, or the zero token: the
/// third token after the first position-fix marker, when all three
/// following tokens are numeric.
pub open spec fn spec_gps_altitude(toks: Seq<Seq<char>>) -> Seq<char> {
    match spec_find_token(toks, "GPS"@, true) {
        None => "0"@,
        Some(i) => if i + 3 < toks.len() && is_numeric_token(toks[i + 1]) && is_numeric_token(
            toks[i + 2],
        ) && is_numeric_token(toks[i + 3]) {
            toks[i + 3]
        } else {
            "0"@
        },
    }
}

/// The line's scalar-temperature token, or the zero token.
pub open spec fn spec_tmp_or_zero(toks: Seq<Seq<char>>) -> Seq<char> {
    match spec_tmp_token(toks) {
        Some(t) => t,
        None => "0"@,
    }
}

/// The pressure-sensor reading of a tokenized line: the three tokens
/// after the first (prefix-matched) marker when they are all numeric;
/// absent when they are present but not all numeric; the synthesized
/// fallback when fewer than three tokens follow the marker.
pub open spec fn spec_ms5611(toks: Seq<Seq<char>>) -> Option<Ms5611View> {
    match spec_find_token(toks, "MS5611"@, true) {
        None => None,
        Some(i) => if i + 3 < toks.len() {
            if is_numeric_token(toks[i + 1]) && is_numeric_token(toks[i + 2]) && is_numeric_token(
                toks[i + 3],
            ) {
                Some(
                    Ms5611View {
                        temp: toks[i + 1],
                        pressure: toks[i + 2],
                        altitude: toks[i + 3],
                    },
                )
            } else {
                None
            }
        } else {
            Some(
                Ms5611View {
                    temp: spec_tmp_or_zero(toks),
                    pressure: "1013.25"@,
                    altitude: spec_gps_altitude(toks),
                },
            )
        },
    }
}

/// The inertial-sensor reading of a tokenized line: the six tokens
/// after the first marker, when all six are present and numeric.
pub open spec fn spec_mpu6050(toks: Seq<Seq<char>>) -> Option<Mpu6050View> {
    match spec_find_token(toks, "MPU6050"@, true) {
        None => None,
        Some(i) => if i + 6 < toks.len() && is_numeric_token(toks[i + 1]) && is_numeric_token(
            toks[i + 2],
        ) && is_numeric_token(toks[i + 3]) && is_numeric_token(toks[i + 4]) && is_numeric_token(
            toks[i + 5],
        ) && is_numeric_token(toks[i + 6]) {
            Some(
                Mpu6050View {
                    gx: toks[i + 1],
                    gy: toks[i + 2],
                    gz: toks[i + 3],
                    ax: toks[i + 4],
                    ay: toks[i + 5],
                    az: toks[i + 6],
                },
            )
        } else {
            None
        },
    }
}

/// Parse one log line into its independently-optional readings.
pub fn parse_telem_line(line: &str) -> (r: (Option<Ms5611>, Option<Mpu6050>, Option<String>))
    ensures
        opt_view(r.0) == spec_ms5611(spec_tokens(line@)),
        opt_view(r.1) == spec_mpu6050(spec_tokens(line@)),
        opt_view(r.2) == spec_tmp_token(spec_tokens(line@)),
{
    let parts = tokenize(line);
    let ghost toks = spec_tokens(line@);
    let n = parts.len();

    let mut tmp: Option<String> = None;
    match find_token(&parts, "TMP", true) {
        Some(i) => {
            if n - i > 1 && numeric_token(parts[i + 1].as_str()) {
                tmp = Some(parts[i + 1].clone());
            }
        },
        None => {},
    }

    let mut gps_alt: String = String::from_str("0");
    match find_token(&parts, "GPS", true) {
        Some(i) => {
            if n - i > 3 && numeric_token(parts[i + 1].as_str()) && numeric_token(
                parts[i + 2].as_str(),
            ) && numeric_token(parts[i + 3].as_str()) {
                gps_alt = parts[i + 3].clone();
            }
        },
        None => {},
    }

    let mut ms5611: Option<Ms5611> = None;
    match find_token(&parts, "MS5611", true) {
        Some(i) => {
            if n - i > 3 {
                if numeric_token(parts[i + 1].as_str()) && numeric_token(parts[i + 2].as_str())
                    && numeric_token(parts[i + 3].as_str()) {
                    ms5611 = Some(
                        Ms5611 {
                            temp: parts[i + 1].clone(),
                            pressure: parts[i + 2].clone(),
                            altitude: parts[i + 3].clone(),
                        },
                    );
                }
            } else {
                let temp = match &tmp {
                    Some(t) => t.clone(),
                    None => String::from_str("0"),
                };
                ms5611 = Some(
                    Ms5611 {
                        temp,
                        pressure: String::from_str("1013.25"),
                        altitude: gps_alt.clone(),
                    },
                );
            }
        },
        None => {},
    }

    let mut mpu6050: Option<Mpu6050> = None;
    match find_token(&parts, "MPU6050", true) {
        Some(i) => {
            if n - i > 6 && numeric_token(parts[i + 1].as_str()) && numeric_token(
                parts[i + 2].as_str(),
            ) && numeric_token(parts[i + 3].as_str()) && numeric_token(parts[i + 4].as_str())
                && numeric_token(parts[i + 5].as_str()) && numeric_token(parts[i + 6].as_str()) {
                mpu6050 = Some(
                    Mpu6050 {
                        gx: parts[i + 1].clone(),
                        gy: parts[i + 2].clone(),
                        gz: parts[i + 3].clone(),
                        ax: parts[i + 4].clone(),
                        ay: parts[i + 5].clone(),
                        az: parts[i + 6].clone(),
                    },
                );
            }
        },
        None => {},
    }

    (ms5611, mpu6050, tmp)
}

} // verus!
