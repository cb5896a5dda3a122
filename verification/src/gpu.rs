//! Parsing the hardware temperature probe's output, of the form
//! `temp=<token>'C` followed by a line break.

use vstd::prelude::*;
use crate::numeric::{is_numeric_token, numeric_token};
use crate::reading::opt_view;
use crate::text::{str_ends_with, str_starts_with};

verus! {

/// The temperature token of a probe output `temp=<token>'C\n`, when
/// the token is numeric.
pub open spec fn spec_gpu_temp_token(s: Seq<char>) -> Option<Seq<char>> {
    if s.len() >= 8 && "temp="@.is_prefix_of(s) && "'C\n"@.is_suffix_of(s) {
        let tok = s.subrange(5, s.len() - 3);
        if is_numeric_token(tok) {
            Some(tok)
        } else {
            None
        }
    } else {
        None
    }
}

/// Extract the numeric temperature token from the probe's output.
pub fn parse_gpu_temp_output(s: &str) -> (r: Option<String>)
    ensures
        opt_view(r) == spec_gpu_temp_token(s@),
{
    proof {
        reveal_strlit("temp=");
        reveal_strlit("'C\n");
    }
    let n = s.unicode_len();
    if n < 8 {
        return None;
    }
    if !str_starts_with(s, "temp=") {
        return None;
    }
    if !str_ends_with(s, "'C\n") {
        return None;
    }
    let tok = s.substring_char(5, n - 3).to_owned();
    if numeric_token(tok.as_str()) {
        Some(tok)
    } else {
        None
    }
}

} // verus!
