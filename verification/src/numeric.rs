//! The numeric-token grammar: the strings the standard floating-point
//! parser accepts, as its documentation states it.
//!
//!     Float  ::= Sign? ( 'inf' | 'infinity' | 'nan' | Number )
//!     Number ::= Count '.' Digit* Exp? | '.' Digit+ Exp? | Count Exp?
//!     Exp    ::= ('e' | 'E') Sign? Count
//!     Count  ::= Digit+
//!
//! with the three words matched without regard to ASCII case.

use vstd::prelude::*;

verus! {

pub open spec fn is_digit(c: char) -> bool {
    48 <= c as u32 && c as u32 <= 57
}

/// `c` is the lowercase ASCII letter `lower`, in either case.
pub open spec fn char_ci_is(c: char, lower: char) -> bool {
    c == lower || c as u32 + 32 == lower as u32
}

pub open spec fn all_digits_in(s: Seq<char>, from: int, to: int) -> bool {
    forall|j: int| from <= j < to ==> is_digit(s[j])
}

/// The first position in `[from, to)` holding `'e'` or `'E'`.
pub open spec fn spec_find_exp(s: Seq<char>, from: int, to: int) -> Option<int>
    decreases to - from,
{
    if from < 0 || from >= to || to > s.len() {
        None
    } else if s[from] == 'e' || s[from] == 'E' {
        Some(from)
    } else {
        spec_find_exp(s, from + 1, to)
    }
}

/// The first position in `[from, to)` holding `'.'`.
pub open spec fn spec_find_dot(s: Seq<char>, from: int, to: int) -> Option<int>
    decreases to - from,
{
    if from < 0 || from >= to || to > s.len() {
        None
    } else if s[from] == '.' {
        Some(from)
    } else {
        spec_find_dot(s, from + 1, to)
    }
}

/// Digits with at most one dot, and at least one digit, in `[from, to)`.
pub open spec fn is_mantissa(s: Seq<char>, from: int, to: int) -> bool {
    match spec_find_dot(s, from, to) {
        None => from < to && all_digits_in(s, from, to),
        Some(d) => all_digits_in(s, from, d) && all_digits_in(s, d + 1, to) && to - from >= 2,
    }
}

/// An exponent marker at `e`, an optional sign, then at least one digit,
/// filling `[e, to)`.
pub open spec fn is_exp_tail(s: Seq<char>, e: int, to: int) -> bool {
    0 <= e && e < to && to <= s.len() && (s[e] == 'e' || s[e] == 'E') && {
        let q = if e + 1 < to && (s[e + 1] == '+' || s[e + 1] == '-') {
            e + 2
        } else {
            e + 1
        };
        q < to && all_digits_in(s, q, to)
    }
}

pub open spec fn is_number_body(s: Seq<char>, from: int) -> bool {
    match spec_find_exp(s, from, s.len() as int) {
        None => is_mantissa(s, from, s.len() as int),
        Some(e) => is_mantissa(s, from, e) && is_exp_tail(s, e, s.len() as int),
    }
}

pub open spec fn is_inf_at(s: Seq<char>, from: int) -> bool {
    s.len() - from == 3 && char_ci_is(s[from], 'i') && char_ci_is(s[from + 1], 'n')
        && char_ci_is(s[from + 2], 'f')
}

pub open spec fn is_infinity_at(s: Seq<char>, from: int) -> bool {
    s.len() - from == 8 && char_ci_is(s[from], 'i') && char_ci_is(s[from + 1], 'n')
        && char_ci_is(s[from + 2], 'f') && char_ci_is(s[from + 3], 'i')
        && char_ci_is(s[from + 4], 'n') && char_ci_is(s[from + 5], 'i')
        && char_ci_is(s[from + 6], 't') && char_ci_is(s[from + 7], 'y')
}

pub open spec fn is_nan_at(s: Seq<char>, from: int) -> bool {
    s.len() - from == 3 && char_ci_is(s[from], 'n') && char_ci_is(s[from + 1], 'a')
        && char_ci_is(s[from + 2], 'n')
}

/// Whether `s` is accepted by the standard floating-point parser.
pub open spec fn is_numeric_token(s: Seq<char>) -> bool {
    let from: int = if s.len() > 0 && (s[0] == '+' || s[0] == '-') {
        1
    } else {
        0
    };
    is_inf_at(s, from) || is_infinity_at(s, from) || is_nan_at(s, from) || is_number_body(s, from)
}

fn digit_char(c: char) -> (r: bool)
    ensures
        r == is_digit(c),
{
    let u = c as u32;
    48 <= u && u <= 57
}

fn char_ci(c: char, lower: char) -> (r: bool)
    ensures
        r == char_ci_is(c, lower),
{
    c == lower || c as u32 + 32 == lower as u32
}

fn all_digits_range(s: &str, from: usize, to: usize) -> (r: bool)
    requires
        from <= to <= s@.len(),
    ensures
        r == all_digits_in(s@, from as int, to as int),
{
    let mut j = from;
    while j < to
        invariant
            from <= j <= to <= s@.len(),
            all_digits_in(s@, from as int, j as int),
        decreases to - j,
    {
        if !digit_char(s.get_char(j)) {
            return false;
        }
        j += 1;
    }
    true
}

fn find_exp(s: &str, from: usize, to: usize) -> (r: Option<usize>)
    requires
        from <= to <= s@.len(),
    ensures
        match r {
            Some(k) => Some(k as int) == spec_find_exp(s@, from as int, to as int) && from <= k
                < to && (s@[k as int] == 'e' || s@[k as int] == 'E'),
            None => spec_find_exp(s@, from as int, to as int) is None,
        },
{
    let mut j = from;
    while j < to
        invariant
            from <= j <= to <= s@.len(),
            spec_find_exp(s@, from as int, to as int) == spec_find_exp(s@, j as int, to as int),
        decreases to - j,
    {
        let c = s.get_char(j);
        if c == 'e' || c == 'E' {
            return Some(j);
        }
        j += 1;
    }
    None
}

fn find_dot(s: &str, from: usize, to: usize) -> (r: Option<usize>)
    requires
        from <= to <= s@.len(),
    ensures
        match r {
            Some(k) => Some(k as int) == spec_find_dot(s@, from as int, to as int) && from <= k
                < to && s@[k as int] == '.',
            None => spec_find_dot(s@, from as int, to as int) is None,
        },
{
    let mut j = from;
    while j < to
        invariant
            from <= j <= to <= s@.len(),
            spec_find_dot(s@, from as int, to as int) == spec_find_dot(s@, j as int, to as int),
        decreases to - j,
    {
        if s.get_char(j) == '.' {
            return Some(j);
        }
        j += 1;
    }
    None
}

fn mantissa_range(s: &str, from: usize, to: usize) -> (r: bool)
    requires
        from <= to <= s@.len(),
    ensures
        r == is_mantissa(s@, from as int, to as int),
{
    match find_dot(s, from, to) {
        None => from < to && all_digits_range(s, from, to),
        Some(d) => {
            let left = all_digits_range(s, from, d);
            let right = all_digits_range(s, d + 1, to);
            left && right && to - from >= 2
        },
    }
}

fn exp_tail_range(s: &str, e: usize, to: usize) -> (r: bool)
    requires
        e < to <= s@.len(),
        s@[e as int] == 'e' || s@[e as int] == 'E',
    ensures
        r == is_exp_tail(s@, e as int, to as int),
{
    let mut q = e + 1;
    if q < to {
        let c = s.get_char(q);
        if c == '+' || c == '-' {
            q += 1;
        }
    }
    q < to && all_digits_range(s, q, to)
}

/// Whether the standard floating-point parser accepts `s`.
pub fn numeric_token(s: &str) -> (r: bool)
    ensures
        r == is_numeric_token(s@),
{
    let n = s.unicode_len();
    let mut from: usize = 0;
    if n > 0 {
        let c = s.get_char(0);
        if c == '+' || c == '-' {
            from = 1;
        }
    }
    if n >= from && n - from == 3 {
        let inf = char_ci(s.get_char(from), 'i') && char_ci(s.get_char(from + 1), 'n')
            && char_ci(s.get_char(from + 2), 'f');
        let nan = char_ci(s.get_char(from), 'n') && char_ci(s.get_char(from + 1), 'a')
            && char_ci(s.get_char(from + 2), 'n');
        if inf || nan {
            return true;
        }
    }
    if n >= from && n - from == 8 {
        let infinity = char_ci(s.get_char(from), 'i') && char_ci(s.get_char(from + 1), 'n')
            && char_ci(s.get_char(from + 2), 'f') && char_ci(s.get_char(from + 3), 'i')
            && char_ci(s.get_char(from + 4), 'n') && char_ci(s.get_char(from + 5), 'i')
            && char_ci(s.get_char(from + 6), 't') && char_ci(s.get_char(from + 7), 'y');
        if infinity {
            return true;
        }
    }
    match find_exp(s, from, n) {
        None => mantissa_range(s, from, n),
        Some(e) => {
            let m = mantissa_range(s, from, e);
            m && exp_tail_range(s, e, n)
        },
    }
}

} // verus!
