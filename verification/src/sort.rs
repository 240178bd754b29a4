//! The classifier: partitions requested package names by where they can
//! be had.
//!
//! For each name, in input order, the embedding binary performs one
//! remote lookup; the classifier places the name in the remote bucket
//! when found, else in the not-found bucket. The repository bucket is
//! reserved for a local-registry check that is not performed yet, so it
//! is always empty — a known gap kept deliberately.

use vstd::multiset::Multiset;
use vstd::prelude::*;

verus! {

/// The classification buckets: repository-available, remote-available,
/// and not found. A stable partition of the input.
#[derive(Debug)]
pub struct Sorted {
    pub repo: Vec<String>,
    pub aur: Vec<String>,
    pub nf: Vec<String>,
}

impl Sorted {
    pub fn new(repo: Vec<String>, aur: Vec<String>, nf: Vec<String>) -> (s: Self)
        ensures
            s.repo == repo,
            s.aur == aur,
            s.nf == nf,
    {
        Sorted { repo, aur, nf }
    }
}

/// The names whose lookup outcome equals `want`, kept in input order.
pub open spec fn filter_by(names: Seq<Seq<char>>, found: Seq<bool>, want: bool) -> Seq<Seq<char>>
    decreases names.len(),
{
    if names.len() == 0 {
        Seq::<Seq<char>>::empty()
    } else {
        let prefix = filter_by(names.drop_last(), found.drop_last(), want);
        if found[names.len() - 1] == want {
            prefix.push(names.last())
        } else {
            prefix
        }
    }
}

/// Classifies the names in `a`, where `found` holds the remote lookup
/// outcome for each name in turn: found names go to the remote bucket,
/// the rest to the not-found bucket, each bucket in input order; the
/// repository bucket stays empty.
pub fn sort(a: &Vec<String>, found: &Vec<bool>) -> (r: Sorted)
    requires
        a@.len() == found@.len(),
    ensures
        r.repo@.len() == 0,
        r.aur.deep_view() == filter_by(a.deep_view(), found@, true),
        r.nf.deep_view() == filter_by(a.deep_view(), found@, false),
{
    let repo: Vec<String> = Vec::new();
    let mut aur: Vec<String> = Vec::new();
    let mut nf: Vec<String> = Vec::new();
    let n: usize = a.len();
    proof {
        assert(aur.deep_view() =~= filter_by(a.deep_view().take(0), found@.take(0), true));
        assert(nf.deep_view() =~= filter_by(a.deep_view().take(0), found@.take(0), false));
    }
    let mut i: usize = 0;
    while i < n
        invariant
            i <= n,
            n == a@.len(),
            n == found@.len(),
            a.deep_view().len() == n,
            aur.deep_view() == filter_by(a.deep_view().take(i as int), found@.take(i as int), true),
            nf.deep_view() == filter_by(a.deep_view().take(i as int), found@.take(i as int), false),
        decreases n - i,
    {
        proof {
            assert(a.deep_view().take(i + 1).drop_last() =~= a.deep_view().take(i as int));
            assert(found@.take(i + 1).drop_last() =~= found@.take(i as int));
            assert(a.deep_view().take(i + 1).last() == a.deep_view()[i as int]);
            assert(a.deep_view()[i as int] == a@[i as int]@);
        }
        if found[i] {
            let name = a[i].clone();
            aur.push(name);
            proof {
                assert(aur.deep_view() =~= filter_by(
                    a.deep_view().take(i + 1),
                    found@.take(i + 1),
                    true,
                ));
            }
        } else {
            let name = a[i].clone();
            nf.push(name);
            proof {
                assert(nf.deep_view() =~= filter_by(
                    a.deep_view().take(i + 1),
                    found@.take(i + 1),
                    false,
                ));
            }
        }
        i = i + 1;
    }
    proof {
        assert(a.deep_view().take(n as int) =~= a.deep_view());
        assert(found@.take(n as int) =~= found@);
    }
    Sorted::new(repo, aur, nf)
}

proof fn lemma_filter_by_multiset(names: Seq<Seq<char>>, found: Seq<bool>)
    requires
        names.len() == found.len(),
    ensures
        filter_by(names, found, true).to_multiset().add(
            filter_by(names, found, false).to_multiset(),
        ) == names.to_multiset(),
    decreases names.len(),
{
    broadcast use vstd::seq_lib::group_to_multiset_ensures;

    if names.len() == 0 {
        assert(filter_by(names, found, true).to_multiset().add(
            filter_by(names, found, false).to_multiset(),
        ) =~= names.to_multiset());
    } else {
        lemma_filter_by_multiset(names.drop_last(), found.drop_last());
        let pre_t = filter_by(names.drop_last(), found.drop_last(), true);
        let pre_f = filter_by(names.drop_last(), found.drop_last(), false);
        let last = names.last();
        assert(names =~= names.drop_last().push(last));
        assert(names.drop_last().push(last).to_multiset() =~= names.drop_last().to_multiset().insert(
            last,
        ));
        if found[names.len() - 1] {
            assert(filter_by(names, found, true) == pre_t.push(last));
            assert(pre_t.push(last).to_multiset() =~= pre_t.to_multiset().insert(last));
            assert(pre_t.to_multiset().insert(last).add(pre_f.to_multiset())
                =~= pre_t.to_multiset().add(pre_f.to_multiset()).insert(last));
        } else {
            assert(filter_by(names, found, false) == pre_f.push(last));
            assert(pre_f.push(last).to_multiset() =~= pre_f.to_multiset().insert(last));
            assert(pre_t.to_multiset().add(pre_f.to_multiset().insert(last))
                =~= pre_t.to_multiset().add(pre_f.to_multiset()).insert(last));
        }
    }
}

/// The classifier partitions its input: counting multiplicity, the
/// found and not-found buckets together hold exactly the input names,
/// and so their set union (ignoring order) equals the input set; each
/// bucket keeps input order by construction.
pub proof fn lemma_sort_partitions(names: Seq<Seq<char>>, found: Seq<bool>)
    requires
        names.len() == found.len(),
    ensures
        filter_by(names, found, true).to_multiset().add(
            filter_by(names, found, false).to_multiset(),
        ) == names.to_multiset(),
        filter_by(names, found, true).to_set().union(filter_by(names, found, false).to_set())
            == names.to_set(),
{
    broadcast use vstd::seq_lib::group_to_multiset_ensures;

    lemma_filter_by_multiset(names, found);
    let f_t = filter_by(names, found, true);
    let f_f = filter_by(names, found, false);
    assert(f_t.to_set().union(f_f.to_set()) =~= names.to_set()) by {
        assert forall|x: Seq<char>| f_t.to_set().union(f_f.to_set()).contains(x)
            <==> names.to_set().contains(x) by {
            assert(f_t.contains(x) <==> f_t.to_multiset().count(x) > 0);
            assert(f_f.contains(x) <==> f_f.to_multiset().count(x) > 0);
            assert(names.contains(x) <==> names.to_multiset().count(x) > 0);
            assert(f_t.to_multiset().add(f_f.to_multiset()).count(x) == f_t.to_multiset().count(x)
                + f_f.to_multiset().count(x));
        }
    }
}

} // verus!
