//! Verified text helpers: splitting on a separator character and
//! trimming surrounding whitespace.
//!
//! The local package-manager listing and the version comparator's output
//! are both line-oriented text; these helpers give the parsers exact
//! specifications to build on.

use vstd::prelude::*;

verus! {

/// The characters treated as trimmable whitespace.
pub open spec fn is_space(c: char) -> bool {
    c == ' ' || c == '\n' || c == '\t' || c == '\r'
}

/// Splitting a character sequence on a separator: always at least one
/// segment; a separator at the end opens a final empty segment.
pub open spec fn split_on(s: Seq<char>, sep: char) -> Seq<Seq<char>>
    decreases s.len(),
{
    if s.len() == 0 {
        seq![Seq::<char>::empty()]
    } else {
        let rest = split_on(s.drop_last(), sep);
        if s.last() == sep {
            rest.push(Seq::<char>::empty())
        } else {
            rest.update(rest.len() - 1, rest.last().push(s.last()))
        }
    }
}

pub proof fn lemma_split_on_len(s: Seq<char>, sep: char)
    ensures
        split_on(s, sep).len() >= 1,
    decreases s.len(),
{
    if s.len() > 0 {
        lemma_split_on_len(s.drop_last(), sep);
    }
}

/// Splits `s` at every occurrence of `sep`, in order.
pub fn split_str(s: &str, sep: char) -> (r: Vec<String>)
    ensures
        r.deep_view() == split_on(s@, sep),
        r@.len() >= 1,
{
    let n: usize = s.unicode_len();
    let mut completed: Vec<String> = Vec::new();
    let mut start: usize = 0;
    let mut i: usize = 0;
    proof {
        assert(s@.take(0) =~= Seq::<char>::empty());
        assert(completed.deep_view().push(s@.subrange(0, 0)) =~= split_on(s@.take(0), sep));
    }
    while i < n
        invariant
            start <= i <= n,
            n == s@.len(),
            completed.deep_view().push(s@.subrange(start as int, i as int)) == split_on(
                s@.take(i as int),
                sep,
            ),
        decreases n - i,
    {
        proof {
            assert(s@.take(i + 1).drop_last() =~= s@.take(i as int));
            assert(s@.take(i + 1).last() == s@[i as int]);
        }
        let ghost prev = split_on(s@.take(i as int), sep);
        let c = s.get_char(i);
        if c == sep {
            let seg = String::from_str(s.substring_char(start, i));
            completed.push(seg);
            proof {
                assert(completed.deep_view() =~= split_on(s@.take(i as int), sep));
                assert(s@.subrange(i + 1, i + 1) =~= Seq::<char>::empty());
                assert(completed.deep_view().push(s@.subrange(i + 1, i + 1)) =~= split_on(
                    s@.take(i + 1),
                    sep,
                ));
            }
            start = i + 1;
        } else {
            proof {
                let cur = s@.subrange(start as int, i as int);
                assert(prev.len() >= 1) by {
                    lemma_split_on_len(s@.take(i as int), sep);
                }
                assert(prev.last() == cur);
                assert(s@.subrange(start as int, i + 1) =~= cur.push(s@[i as int]));
                assert(completed.deep_view().push(s@.subrange(start as int, i + 1)) =~= prev.update(
                    prev.len() - 1,
                    prev.last().push(s@[i as int]),
                ));
            }
        }
        i = i + 1;
    }
    let tail = String::from_str(s.substring_char(start, n));
    completed.push(tail);
    proof {
        assert(s@.take(n as int) =~= s@);
        assert(completed.deep_view() =~= split_on(s@, sep));
        lemma_split_on_len(s@, sep);
    }
    completed
}

/// Trimming: strips whitespace characters from both ends.
pub open spec fn trim_spec(s: Seq<char>) -> Seq<char>
    decreases s.len(),
{
    if s.len() == 0 {
        s
    } else if is_space(s[0]) {
        trim_spec(s.drop_first())
    } else if is_space(s.last()) {
        trim_spec(s.drop_last())
    } else {
        s
    }
}

/// Returns `s` with surrounding whitespace removed.
pub fn trim_str(s: &str) -> (r: String)
    ensures
        r@ == trim_spec(s@),
    decreases s@.len(),
{
    let n: usize = s.unicode_len();
    if n == 0 {
        String::from_str(s)
    } else {
        let c0 = s.get_char(0);
        if c0 == ' ' || c0 == '\n' || c0 == '\t' || c0 == '\r' {
            proof {
                assert(s@.subrange(1, n as int) =~= s@.drop_first());
            }
            trim_str(s.substring_char(1, n))
        } else {
            let cl = s.get_char(n - 1);
            if cl == ' ' || cl == '\n' || cl == '\t' || cl == '\r' {
                proof {
                    assert(s@.subrange(0, n - 1) =~= s@.drop_last());
                }
                trim_str(s.substring_char(0, n - 1))
            } else {
                String::from_str(s)
            }
        }
    }
}

} // verus!
