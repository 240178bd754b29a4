//! The upgrade pipeline's decision core.
//!
//! The remote-package branch parses the local package manager's foreign
//! listing into name/version pairs, asks the registry about each, and
//! compares versions through the external comparator; only a comparison
//! of `-1` (upstream newer) marks a package upgradable. The embedding
//! binary performs the lookups and comparator runs and feeds the
//! outcomes back in.

use vstd::prelude::*;

use crate::error::{AppError, AppResult};
use crate::rpc::InfoResults;
use crate::strutil::{split_on, split_str, trim_spec, trim_str};

verus! {

/// Which subsystems an upgrade run covers.
#[derive(Clone, Copy, Debug, PartialEq, Eq, Structural)]
pub struct UpgradeArgs {
    pub aur: bool,
    pub repo: bool,
}

/// When neither subsystem is explicitly requested, both are upgraded.
pub fn effective_targets(args: UpgradeArgs) -> (r: UpgradeArgs)
    ensures
        (!args.aur && !args.repo) ==> r == (UpgradeArgs { aur: true, repo: true }),
        (args.aur || args.repo) ==> r == args,
{
    if !args.aur && !args.repo {
        UpgradeArgs { aur: true, repo: true }
    } else {
        args
    }
}

/// Arguments of the elevated full-system-upgrade invocation.
pub fn system_upgrade_args(noconfirm: bool) -> (r: Vec<String>)
    ensures
        noconfirm ==> r.deep_view() == seq!["-Syu"@, "--noconfirm"@],
        !noconfirm ==> r.deep_view() == seq!["-Syu"@],
{
    let mut v: Vec<String> = Vec::new();
    v.push(String::from_str("-Syu"));
    if noconfirm {
        v.push(String::from_str("--noconfirm"));
        proof {
            assert(v.deep_view() =~= seq!["-Syu"@, "--noconfirm"@]);
        }
    } else {
        proof {
            assert(v.deep_view() =~= seq!["-Syu"@]);
        }
    }
    v
}

/// Arguments of the foreign-package listing query.
pub fn foreign_query_args() -> (r: Vec<String>)
    ensures
        r.deep_view() == seq!["-Qm"@, "--color"@, "never"@],
{
    let mut v: Vec<String> = Vec::new();
    v.push(String::from_str("-Qm"));
    v.push(String::from_str("--color"));
    v.push(String::from_str("never"));
    proof {
        assert(v.deep_view() =~= seq!["-Qm"@, "--color"@, "never"@]);
    }
    v
}

/// One locally installed foreign package, as parsed from the listing.
#[derive(Debug)]
pub struct QueriedPackage {
    pub name: String,
    pub version: String,
}

/// The name/version pair a parsed package stands for.
pub open spec fn queried_pair(p: QueriedPackage) -> (Seq<char>, Seq<char>) {
    (p.name@, p.version@)
}

/// The lines of a listing: its newline-separated segments, without the
/// empty segment a trailing newline opens.
pub open spec fn listing_lines(s: Seq<char>) -> Seq<Seq<char>> {
    let segs = split_on(s, '\n');
    if segs.last().len() == 0 {
        segs.drop_last()
    } else {
        segs
    }
}

/// One listing line parses to its first two space-separated segments —
/// name, then version — and only if a space boundary exists at all.
pub open spec fn parse_line_spec(line: Seq<char>) -> Option<(Seq<char>, Seq<char>)> {
    let toks = split_on(line, ' ');
    if toks.len() < 2 {
        None
    } else {
        Some((toks[0], toks[1]))
    }
}

/// A whole listing parses iff every line does; one malformed line
/// fails the whole parse.
pub open spec fn parse_listing_spec(s: Seq<char>) -> Option<Seq<(Seq<char>, Seq<char>)>> {
    let lines = listing_lines(s);
    if forall|i: int| 0 <= i < lines.len() ==> (#[trigger] parse_line_spec(lines[i])) is Some {
        Some(Seq::new(lines.len(), |i: int| parse_line_spec(lines[i])->Some_0))
    } else {
        None
    }
}

/// Parses the foreign listing, one `name version` pair per line. A
/// line with fewer than two space-separated segments is a `Parse`
/// error, never silently dropped: it signals an incompatible listing
/// format.
pub fn parse_foreign_listing(s: &str) -> (r: AppResult<Vec<QueriedPackage>>)
    ensures
        r is Ok <==> parse_listing_spec(s@) is Some,
        r matches Ok(v) ==> v@.map_values(|p: QueriedPackage| queried_pair(p))
            == parse_listing_spec(s@)->Some_0,
        r matches Err(e) ==> e is Parse,
{
    let mut lines = split_str(s, '\n');
    let n0: usize = lines.len();
    if lines[n0 - 1].as_str().is_empty() {
        let _ = lines.pop();
    }
    proof {
        assert(lines.deep_view() =~= listing_lines(s@));
    }
    let ghost lns = listing_lines(s@);
    let n: usize = lines.len();
    let mut out: Vec<QueriedPackage> = Vec::new();
    let mut i: usize = 0;
    proof {
        assert(out@.map_values(|p: QueriedPackage| queried_pair(p)) =~= Seq::new(
            0,
            |j: int| parse_line_spec(lns[j])->Some_0,
        ));
    }
    while i < n
        invariant
            i <= n,
            n == lns.len(),
            lns == listing_lines(s@),
            lines.deep_view() == lns,
            lines@.len() == n,
            forall|j: int| 0 <= j < i ==> (#[trigger] parse_line_spec(lns[j])) is Some,
            out@.map_values(|p: QueriedPackage| queried_pair(p)) == Seq::new(
                i as nat,
                |j: int| parse_line_spec(lns[j])->Some_0,
            ),
        decreases n - i,
    {
        let toks = split_str(lines[i].as_str(), ' ');
        proof {
            assert(lines@[i as int]@ == lns[i as int]);
            assert(toks.deep_view() == split_on(lns[i as int], ' '));
        }
        if toks.len() < 2 {
            proof {
                assert(parse_line_spec(lns[i as int]) is None);
                assert((i as int) < listing_lines(s@).len());
                assert(parse_line_spec(listing_lines(s@)[i as int]) is None);
                assert(!(forall|j: int|
                    0 <= j < listing_lines(s@).len() ==> (#[trigger] parse_line_spec(
                        listing_lines(s@)[j],
                    )) is Some));
                assert(parse_listing_spec(s@) is None);
            }
            return Err(AppError::Parse("malformed line in local package listing".to_owned()));
        }
        let name = toks[0].clone();
        let version = toks[1].clone();
        let ghost prev = out@.map_values(|p: QueriedPackage| queried_pair(p));
        out.push(QueriedPackage { name, version });
        proof {
            assert(toks.deep_view()[0] == toks@[0]@);
            assert(toks.deep_view()[1] == toks@[1]@);
            assert(parse_line_spec(lns[i as int]) == Some((toks@[0]@, toks@[1]@)));
            assert(out@.map_values(|p: QueriedPackage| queried_pair(p)) =~= prev.push(
                (toks@[0]@, toks@[1]@),
            ));
            assert(out@.map_values(|p: QueriedPackage| queried_pair(p)) =~= Seq::new(
                (i + 1) as nat,
                |j: int| parse_line_spec(lns[j])->Some_0,
            ));
        }
        i = i + 1;
    }
    proof {
        assert(parse_listing_spec(s@) is Some);
        assert(out@.map_values(|p: QueriedPackage| queried_pair(p)) =~= parse_listing_spec(
            s@,
        )->Some_0);
    }
    Ok(out)
}

/// The comparator's verdict marks a package upgradable only when its
/// trimmed output is exactly `-1` (upstream strictly newer); `0` and
/// `1` never do — and only a package found upstream can be upgradable
/// at all.
pub fn is_upgradable(found: bool, vercmp_output: &str) -> (r: bool)
    ensures
        r == (found && trim_spec(vercmp_output@) == seq!['-', '1']),
{
    if !found {
        false
    } else {
        let t = trim_str(vercmp_output);
        let marker = String::from_str("-1");
        proof {
            reveal_strlit("-1");
            assert(marker@ =~= seq!['-', '1']);
        }
        t == marker
    }
}

/// The upgradable names among parsed packages, given each package's
/// lookup outcome and comparator output, in listing order.
pub open spec fn upgradable_spec(
    names: Seq<Seq<char>>,
    found: Seq<bool>,
    cmp: Seq<Seq<char>>,
) -> Seq<Seq<char>>
    decreases names.len(),
{
    if names.len() == 0 {
        Seq::<Seq<char>>::empty()
    } else {
        let prefix = upgradable_spec(names.drop_last(), found.drop_last(), cmp.drop_last());
        if found[names.len() - 1] && trim_spec(cmp[names.len() - 1]) == seq!['-', '1'] {
            prefix.push(names.last())
        } else {
            prefix
        }
    }
}

/// Collects the upgradable package names: those found upstream whose
/// comparator output trims to `-1`, in listing order. For a package
/// not found upstream the comparator was never run, and its entry in
/// `cmp_outputs` is ignored.
pub fn select_upgradable(
    pkgs: &Vec<QueriedPackage>,
    infos: &Vec<InfoResults>,
    cmp_outputs: &Vec<String>,
) -> (r: Vec<String>)
    requires
        pkgs@.len() == infos@.len(),
        pkgs@.len() == cmp_outputs@.len(),
    ensures
        r.deep_view() == upgradable_spec(
            pkgs@.map_values(|p: QueriedPackage| p.name@),
            infos@.map_values(|x: InfoResults| x.found),
            cmp_outputs.deep_view(),
        ),
{
    let ghost names = pkgs@.map_values(|p: QueriedPackage| p.name@);
    let ghost found = infos@.map_values(|x: InfoResults| x.found);
    let ghost cmp = cmp_outputs.deep_view();
    let n: usize = pkgs.len();
    let mut r: Vec<String> = Vec::new();
    let mut i: usize = 0;
    proof {
        assert(r.deep_view() =~= upgradable_spec(names.take(0), found.take(0), cmp.take(0)));
    }
    while i < n
        invariant
            i <= n,
            n == pkgs@.len(),
            n == infos@.len(),
            n == cmp_outputs@.len(),
            names == pkgs@.map_values(|p: QueriedPackage| p.name@),
            found == infos@.map_values(|x: InfoResults| x.found),
            cmp == cmp_outputs.deep_view(),
            r.deep_view() == upgradable_spec(
                names.take(i as int),
                found.take(i as int),
                cmp.take(i as int),
            ),
        decreases n - i,
    {
        proof {
            assert(names.take(i + 1).drop_last() =~= names.take(i as int));
            assert(found.take(i + 1).drop_last() =~= found.take(i as int));
            assert(cmp.take(i + 1).drop_last() =~= cmp.take(i as int));
            assert(names.take(i + 1).last() == pkgs@[i as int].name@);
            assert(cmp.take(i + 1)[i as int] == cmp_outputs@[i as int]@);
        }
        if is_upgradable(infos[i].found, cmp_outputs[i].as_str()) {
            let name = pkgs[i].name.clone();
            r.push(name);
            proof {
                assert(r.deep_view() =~= upgradable_spec(
                    names.take(i + 1),
                    found.take(i + 1),
                    cmp.take(i + 1),
                ));
            }
        } else {
            proof {
                assert(r.deep_view() =~= upgradable_spec(
                    names.take(i + 1),
                    found.take(i + 1),
                    cmp.take(i + 1),
                ));
            }
        }
        i = i + 1;
    }
    proof {
        assert(names.take(n as int) =~= names);
        assert(found.take(n as int) =~= found);
        assert(cmp.take(n as int) =~= cmp);
    }
    r
}

} // verus!
