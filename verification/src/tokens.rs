//! Tokenization of one log line.
//!
//! A line is split on whitespace and commas, empty tokens discarded.

use vstd::prelude::*;
use crate::text::{is_sep_char, sep_char};

verus! {

/// The tokens of `s` from position `i` on, with `cur` the partial token
/// accumulated so far.
pub open spec fn spec_tokens_from(s: Seq<char>, i: int, cur: Seq<char>) -> Seq<Seq<char>>
    decreases s.len() - i,
{
    if i < 0 || i >= s.len() {
        if cur.len() == 0 {
            Seq::empty()
        } else {
            seq![cur]
        }
    } else if is_sep_char(s[i]) {
        if cur.len() == 0 {
            spec_tokens_from(s, i + 1, Seq::empty())
        } else {
            seq![cur] + spec_tokens_from(s, i + 1, Seq::empty())
        }
    } else {
        spec_tokens_from(s, i + 1, cur.push(s[i]))
    }
}

/// The tokens of a line: maximal runs of non-separator characters.
pub open spec fn spec_tokens(s: Seq<char>) -> Seq<Seq<char>> {
    spec_tokens_from(s, 0, Seq::empty())
}

/// The views of a vector of strings.
pub open spec fn seq_views(v: Seq<String>) -> Seq<Seq<char>> {
    v.map_values(|s: String| s@)
}

/// Split a line into its tokens.
pub fn tokenize(line: &str) -> (tokens: Vec<String>)
    ensures
        seq_views(tokens@) == spec_tokens(line@),
{
    let n = line.unicode_len();
    let mut tokens: Vec<String> = Vec::new();
    let mut start: usize = 0;
    let mut i: usize = 0;
    proof {
        assert(line@.subrange(0, 0) =~= Seq::<char>::empty());
        assert(seq_views(tokens@) =~= Seq::<Seq<char>>::empty());
        assert(seq_views(tokens@) + spec_tokens_from(line@, 0, line@.subrange(0, 0)) =~= spec_tokens(
            line@,
        ));
    }
    while i < n
        invariant
            n == line@.len(),
            start <= i <= n,
            seq_views(tokens@) + spec_tokens_from(line@, i as int, line@.subrange(start as int, i as int))
                =~= spec_tokens(line@),
        decreases n - i,
    {
        let ghost prev = tokens@;
        let ghost cur = line@.subrange(start as int, i as int);
        let c = line.get_char(i);
        if sep_char(c) {
            if start < i {
                let tok = line.substring_char(start, i).to_owned();
                tokens.push(tok);
                proof {
                    assert(seq_views(tokens@) =~= seq_views(prev).push(cur));
                    assert(seq_views(prev).push(cur) + spec_tokens_from(line@, i + 1, Seq::empty())
                        =~= seq_views(prev) + (seq![cur] + spec_tokens_from(line@, i + 1, Seq::empty())));
                }
            }
            start = i + 1;
            proof {
                assert(line@.subrange(start as int, start as int) =~= Seq::<char>::empty());
            }
        } else {
            proof {
                assert(line@.subrange(start as int, i + 1) =~= cur.push(line@[i as int]));
            }
        }
        i += 1;
    }
    if start < n {
        let ghost prev = tokens@;
        let ghost cur = line@.subrange(start as int, n as int);
        let tok = line.substring_char(start, n).to_owned();
        tokens.push(tok);
        proof {
            assert(seq_views(tokens@) =~= seq_views(prev).push(cur));
            assert(seq_views(prev).push(cur) =~= seq_views(prev) + seq![cur]);
        }
    } else {
        proof {
            assert(line@.subrange(start as int, n as int) =~= Seq::<char>::empty());
        }
    }
    tokens
}

} // verus!
