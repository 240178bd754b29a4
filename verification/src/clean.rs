//! The orphan- and cache-cleaning decision core.
//!
//! Orphaned packages come back from the package manager one per line;
//! the library extracts them and builds the exact argument lists of the
//! removal and cache-clearing invocations. Prompting the user and
//! running the commands is the embedding binary's work.

use vstd::prelude::*;

use crate::strutil::{split_on, split_str};

verus! {

/// The non-empty segments of `segs`, in order.
pub open spec fn keep_nonempty(segs: Seq<Seq<char>>) -> Seq<Seq<char>>
    decreases segs.len(),
{
    if segs.len() == 0 {
        Seq::<Seq<char>>::empty()
    } else {
        let prefix = keep_nonempty(segs.drop_last());
        if segs.last().len() > 0 {
            prefix.push(segs.last())
        } else {
            prefix
        }
    }
}

/// The orphaned package names in a listing: its non-empty lines, in
/// order.
pub fn parse_orphan_list(s: &str) -> (r: Vec<String>)
    ensures
        r.deep_view() == keep_nonempty(split_on(s@, '\n')),
{
    let lines = split_str(s, '\n');
    let ghost segs = split_on(s@, '\n');
    let n: usize = lines.len();
    let mut r: Vec<String> = Vec::new();
    let mut i: usize = 0;
    proof {
        assert(r.deep_view() =~= keep_nonempty(segs.take(0)));
    }
    while i < n
        invariant
            i <= n,
            n == segs.len(),
            segs == split_on(s@, '\n'),
            lines.deep_view() == segs,
            lines@.len() == n,
            r.deep_view() == keep_nonempty(segs.take(i as int)),
        decreases n - i,
    {
        proof {
            assert(segs.take(i + 1).drop_last() =~= segs.take(i as int));
            assert(segs.take(i + 1).last() == lines@[i as int]@);
        }
        if !lines[i].as_str().is_empty() {
            let line = lines[i].clone();
            r.push(line);
            proof {
                assert(r.deep_view() =~= keep_nonempty(segs.take(i + 1)));
            }
        } else {
            proof {
                assert(r.deep_view() =~= keep_nonempty(segs.take(i + 1)));
            }
        }
        i = i + 1;
    }
    proof {
        assert(segs.take(n as int) =~= segs);
    }
    r
}

/// Appends clones of `extra` to `base`, keeping order.
fn push_all(base: Vec<String>, extra: &Vec<String>) -> (r: Vec<String>)
    ensures
        r.deep_view() == base.deep_view() + extra.deep_view(),
{
    let ghost base_dv = base.deep_view();
    let mut r = base;
    let n: usize = extra.len();
    let mut i: usize = 0;
    proof {
        assert(r.deep_view() =~= base_dv + extra.deep_view().take(0));
    }
    while i < n
        invariant
            i <= n,
            n == extra@.len(),
            r.deep_view() == base_dv + extra.deep_view().take(i as int),
        decreases n - i,
    {
        let item = extra[i].clone();
        let ghost prev = r.deep_view();
        r.push(item);
        proof {
            assert(extra.deep_view()[i as int] == extra@[i as int]@);
            assert(r.deep_view() =~= prev.push(extra.deep_view()[i as int]));
            assert(r.deep_view() =~= base_dv + extra.deep_view().take(i + 1));
        }
        i = i + 1;
    }
    proof {
        assert(extra.deep_view().take(n as int) =~= extra.deep_view());
    }
    r
}

/// Arguments of the elevated orphan-removal invocation: remove each
/// orphan with its now-unneeded dependencies.
pub fn removal_args(orphans: &Vec<String>, noconfirm: bool) -> (r: Vec<String>)
    ensures
        noconfirm ==> r.deep_view() == seq!["-Rns"@, "--noconfirm"@] + orphans.deep_view(),
        !noconfirm ==> r.deep_view() == seq!["-Rns"@] + orphans.deep_view(),
{
    let mut base: Vec<String> = Vec::new();
    base.push(String::from_str("-Rns"));
    if noconfirm {
        base.push(String::from_str("--noconfirm"));
        proof {
            assert(base.deep_view() =~= seq!["-Rns"@, "--noconfirm"@]);
        }
    } else {
        proof {
            assert(base.deep_view() =~= seq!["-Rns"@]);
        }
    }
    push_all(base, orphans)
}

/// Arguments of the elevated package-cache clearing invocation.
pub fn cache_clear_args(noconfirm: bool) -> (r: Vec<String>)
    ensures
        noconfirm ==> r.deep_view() == seq!["-Sc"@, "--noconfirm"@],
        !noconfirm ==> r.deep_view() == seq!["-Sc"@],
{
    let mut v: Vec<String> = Vec::new();
    v.push(String::from_str("-Sc"));
    if noconfirm {
        v.push(String::from_str("--noconfirm"));
        proof {
            assert(v.deep_view() =~= seq!["-Sc"@, "--noconfirm"@]);
        }
    } else {
        proof {
            assert(v.deep_view() =~= seq!["-Sc"@]);
        }
    }
    v
}

/// Arguments of the cache-trimming helper invocation.
pub fn paccache_args(noconfirm: bool) -> (r: Vec<String>)
    ensures
        noconfirm ==> r.deep_view() == seq!["-r"@, "--noconfirm"@],
        !noconfirm ==> r.deep_view() == seq!["-r"@],
{
    let mut v: Vec<String> = Vec::new();
    v.push(String::from_str("-r"));
    if noconfirm {
        v.push(String::from_str("--noconfirm"));
        proof {
            assert(v.deep_view() =~= seq!["-r"@, "--noconfirm"@]);
        }
    } else {
        proof {
            assert(v.deep_view() =~= seq!["-r"@]);
        }
    }
    v
}

} // verus!
