//! Global substring replacement over character sequences.
//!
//! The home-directory abbreviation of the left prompt segment replaces every
//! occurrence of the home path inside the working-directory path. The
//! behaviour is pinned down by [`replace_all`], which scans left to right and
//! substitutes each leftmost, non-overlapping occurrence of the pattern.

use vstd::prelude::*;
use vstd::string::*;

verus! {

/// The result of replacing, left to right, every non-overlapping occurrence
/// of `from` in `s` by `to`.
///
/// An empty pattern matches between every pair of adjacent characters as
/// well as at both ends, so `to` is interleaved around every character.
pub open spec fn replace_all(s: Seq<char>, from: Seq<char>, to: Seq<char>) -> Seq<char>
    decreases s.len(),
{
    if from.len() == 0 {
        if s.len() == 0 {
            to
        } else {
            to + seq![s[0]] + replace_all(s.skip(1), from, to)
        }
    } else if s.len() < from.len() {
        s
    } else if s.subrange(0, from.len() as int) == from {
        to + replace_all(s.skip(from.len() as int), from, to)
    } else {
        seq![s[0]] + replace_all(s.skip(1), from, to)
    }
}

/// Whether the characters of `from` occur in `s` starting at position `i`.
fn matches_at(s: &str, from: &str, i: usize) -> (r: bool)
    requires
        i + from@.len() <= s@.len(),
        s@.len() <= usize::MAX,
    ensures
        r == (s@.subrange(i as int, i + from@.len()) == from@),
{
    let m = from.unicode_len();
    let mut j: usize = 0;
    while j < m
        invariant
            j <= m,
            m == from@.len(),
            i + m <= s@.len(),
            s@.len() <= usize::MAX,
            forall|k: int| 0 <= k < j ==> s@[i + k] == from@[k],
        decreases m - j,
    {
        if s.get_char(i + j) != from.get_char(j) {
            assert(s@.subrange(i as int, i + from@.len())[j as int] != from@[j as int]);
            return false;
        }
        j = j + 1;
    }
    proof {
        assert(s@.subrange(i as int, i + from@.len()) =~= from@);
    }
    true
}

/// Replaces every non-overlapping occurrence of `from` in `s` by `to`,
/// scanning left to right.
pub fn replace_chars(s: &str, from: &str, to: &str) -> (r: String)
    ensures
        r@ == replace_all(s@, from@, to@),
{
    let n = s.unicode_len();
    let m = from.unicode_len();
    let mut out = String::new();
    let mut i: usize = 0;
    proof {
        assert(s@.skip(0) =~= s@);
        assert(out@ + replace_all(s@, from@, to@) =~= replace_all(s@, from@, to@));
    }
    if m == 0 {
        while i < n
            invariant
                i <= n,
                n == s@.len(),
                from@.len() == 0,
                replace_all(s@, from@, to@) == out@ + replace_all(
                    s@.skip(i as int),
                    from@,
                    to@,
                ),
            decreases n - i,
        {
            out.append(to);
            let piece = s.substring_char(i, i + 1);
            out.append(piece);
            proof {
                assert(s@.skip(i as int)[0] == s@[i as int]);
                assert(piece@ =~= seq![s@.skip(i as int)[0]]);
                assert(s@.skip(i as int).skip(1) =~= s@.skip(i + 1));
            }
            i = i + 1;
        }
        proof {
            assert(s@.skip(n as int) =~= Seq::<char>::empty());
        }
        out.append(to);
        return out;
    }
    while i < n
        invariant
            i <= n,
            n == s@.len(),
            m == from@.len(),
            m >= 1,
            replace_all(s@, from@, to@) == out@ + replace_all(s@.skip(i as int), from@, to@),
        decreases n - i,
    {
        if m <= n && i <= n - m && matches_at(s, from, i) {
            out.append(to);
            proof {
                assert(s@.skip(i as int).subrange(0, m as int) =~= s@.subrange(
                    i as int,
                    i + m,
                ));
                assert(s@.skip(i as int).skip(m as int) =~= s@.skip(i + m));
            }
            i = i + m;
        } else {
            let piece = s.substring_char(i, i + 1);
            out.append(piece);
            proof {
                let rest = s@.skip(i as int);
                if i + m <= n {
                    assert(rest.subrange(0, m as int) =~= s@.subrange(i as int, i + m));
                    assert(rest.subrange(0, m as int) != from@);
                }
                assert(rest[0] == s@[i as int]);
                assert(piece@ =~= seq![rest[0]]);
                assert(rest.skip(1) =~= s@.skip(i + 1));
            }
            i = i + 1;
        }
    }
    proof {
        assert(s@.skip(n as int) =~= Seq::<char>::empty());
    }
    out
}

} // verus!
