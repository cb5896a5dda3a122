//! The latest-reading extractor: scan the file's lines newest-first and
//! keep, per sensor kind, the most recent non-blank line that carries
//! the kind's marker substring.

use vstd::prelude::*;
use crate::text::{is_space_char, space_char, str_eq};
use crate::tokens::seq_views;

verus! {

/// `s` without its leading whitespace.
pub open spec fn spec_trim_start(s: Seq<char>) -> Seq<char>
    decreases s.len(),
{
    if s.len() > 0 && is_space_char(s[0]) {
        spec_trim_start(s.drop_first())
    } else {
        s
    }
}

/// `s` without its trailing whitespace.
pub open spec fn spec_trim_end(s: Seq<char>) -> Seq<char>
    decreases s.len(),
{
    if s.len() > 0 && is_space_char(s.last()) {
        spec_trim_end(s.drop_last())
    } else {
        s
    }
}

/// `s` without leading and trailing whitespace.
pub open spec fn spec_trim(s: Seq<char>) -> Seq<char> {
    spec_trim_end(spec_trim_start(s))
}

/// Strip leading and trailing whitespace.
pub fn trim(s: &str) -> (r: String)
    ensures
        r@ == spec_trim(s@),
{
    let n = s.unicode_len();
    let mut a: usize = 0;
    proof {
        assert(s@.skip(0) =~= s@);
    }
    while a < n && space_char(s.get_char(a))
        invariant
            n == s@.len(),
            a <= n,
            spec_trim_start(s@) == spec_trim_start(s@.skip(a as int)),
        decreases n - a,
    {
        proof {
            assert(s@.skip(a as int).drop_first() =~= s@.skip(a + 1));
        }
        a += 1;
    }
    if a == n {
        proof {
            assert(s@.skip(n as int) =~= Seq::<char>::empty());
        }
        return String::new();
    }
    let ghost head = s@.skip(a as int);
    proof {
        assert(head == spec_trim_start(s@));
        assert(head =~= s@.subrange(a as int, n as int));
    }
    let mut b: usize = n;
    while b > a && space_char(s.get_char(b - 1))
        invariant
            n == s@.len(),
            a <= b <= n,
            spec_trim_end(head) == spec_trim_end(s@.subrange(a as int, b as int)),
            head == s@.subrange(a as int, n as int),
        decreases b,
    {
        proof {
            let cur = s@.subrange(a as int, b as int);
            assert(cur.last() == s@[b - 1]);
            assert(cur.drop_last() =~= s@.subrange(a as int, b - 1));
        }
        b -= 1;
    }
    proof {
        let cur = s@.subrange(a as int, b as int);
        if b > a {
            assert(cur.last() == s@[b - 1]);
            assert(!is_space_char(cur.last()));
        } else {
            assert(cur =~= Seq::<char>::empty());
        }
        assert(spec_trim_end(cur) == cur);
    }
    s.substring_char(a, b).to_owned()
}

/// Whether `needle` occurs in `hay` as a contiguous substring.
pub open spec fn spec_contains(hay: Seq<char>, needle: Seq<char>) -> bool {
    exists|k: int|
        0 <= k && k + needle.len() <= hay.len() && #[trigger] hay.subrange(k, k + needle.len())
            == needle
}

/// Substring search.
pub fn contains_str(hay: &str, needle: &str) -> (r: bool)
    ensures
        r == spec_contains(hay@, needle@),
{
    let n = hay.unicode_len();
    let m = needle.unicode_len();
    if m > n {
        return false;
    }
    if m == 0 {
        proof {
            assert(hay@.subrange(0, 0 + needle@.len() as int) =~= needle@);
            assert(spec_contains(hay@, needle@));
        }
        return true;
    }
    let mut k: usize = 0;
    while k <= n - m
        invariant
            n == hay@.len(),
            m == needle@.len(),
            0 < m <= n,
            k <= n - m + 1,
            forall|k2: int| 0 <= k2 < k ==> #[trigger] hay@.subrange(k2, k2 + m) != needle@,
        decreases n - k,
    {
        if str_eq(hay.substring_char(k, k + m), needle) {
            proof {
                assert(hay@.subrange(k as int, k + m) == needle@);
            }
            return true;
        }
        k += 1;
    }
    false
}

/// The most recent line whose trimmed content is non-blank and carries
/// the marker, trimmed; scanning newest-first means the last such line
/// of the sequence wins.
pub open spec fn spec_latest(lines: Seq<Seq<char>>, marker: Seq<char>) -> Option<Seq<char>>
    decreases lines.len(),
{
    if lines.len() == 0 {
        None
    } else {
        let t = spec_trim(lines.last());
        if t.len() > 0 && spec_contains(t, marker) {
            Some(t)
        } else {
            spec_latest(lines.drop_last(), marker)
        }
    }
}

/// Scan the lines newest-first and keep, per kind, the most recent
/// non-blank line carrying that kind's marker; stop early once all
/// three kinds are found.
pub fn extract_latest(lines: &Vec<String>) -> (r: (Option<String>, Option<String>, Option<String>))
    ensures
        crate::reading::opt_view(r.0) == spec_latest(seq_views(lines@), "MS5611"@),
        crate::reading::opt_view(r.1) == spec_latest(seq_views(lines@), "MPU6050"@),
        crate::reading::opt_view(r.2) == spec_latest(seq_views(lines@), "TMP"@),
{
    let ghost ls = seq_views(lines@);
    let mut ms: Option<String> = None;
    let mut mpu: Option<String> = None;
    let mut tm: Option<String> = None;
    let mut i: usize = lines.len();
    proof {
        assert(ls.take(i as int) =~= ls);
    }
    while i > 0 && !(ms.is_some() && mpu.is_some() && tm.is_some())
        invariant
            i <= lines@.len(),
            ls == seq_views(lines@),
            match ms {
                Some(s) => Some(s@) == spec_latest(ls, "MS5611"@),
                None => spec_latest(ls, "MS5611"@) == spec_latest(ls.take(i as int), "MS5611"@),
            },
            match mpu {
                Some(s) => Some(s@) == spec_latest(ls, "MPU6050"@),
                None => spec_latest(ls, "MPU6050"@) == spec_latest(ls.take(i as int), "MPU6050"@),
            },
            match tm {
                Some(s) => Some(s@) == spec_latest(ls, "TMP"@),
                None => spec_latest(ls, "TMP"@) == spec_latest(ls.take(i as int), "TMP"@),
            },
        decreases i,
    {
        i -= 1;
        proof {
            assert(ls.take(i + 1).last() == ls[i as int]);
            assert(ls.take(i + 1).drop_last() =~= ls.take(i as int));
            assert(ls[i as int] == lines@[i as int]@);
        }
        let t = trim(lines[i].as_str());
        let blank = t.as_str().is_empty();
        if !blank {
            if ms.is_none() && contains_str(t.as_str(), "MS5611") {
                ms = Some(t.clone());
            }
            if mpu.is_none() && contains_str(t.as_str(), "MPU6050") {
                mpu = Some(t.clone());
            }
            if tm.is_none() && contains_str(t.as_str(), "TMP") {
                tm = Some(t.clone());
            }
        }
    }
    proof {
        if i == 0 {
            assert(ls.take(0) =~= Seq::<Seq<char>>::empty());
        }
    }
    (ms, mpu, tm)
}

} // verus!
