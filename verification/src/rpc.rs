//! The remote registry's data model and the lookup decision.
//!
//! The registry answers a query with a result set; turning that set into
//! a lookup outcome — found iff non-empty, the first entry when found —
//! is the library's logic. Fetching and JSON decoding are outside work
//! done by the embedding binary, which hands a decoded [`SearchResults`]
//! in.

use vstd::prelude::*;

verus! {

/// One package as the remote registry reports it.
#[derive(Debug)]
pub struct Package {
    pub name: String,
    pub version: String,
    pub description: Option<String>,
    pub depends: Vec<String>,
    pub make_depends: Vec<String>,
    pub opt_depends: Vec<String>,
    pub out_of_date: Option<usize>,
}

/// A decoded result set from the remote registry.
#[derive(Debug)]
pub struct SearchResults {
    pub resultcount: u32,
    pub results: Vec<Package>,
}

/// The outcome of an exact-name lookup. "Not found" is a normal
/// outcome, never an error.
#[derive(Debug)]
pub struct InfoResults {
    pub found: bool,
    pub package: Option<Package>,
}

impl InfoResults {
    /// A lookup outcome is well-formed when the package is present
    /// exactly when it was found; in particular `found == false` never
    /// comes with a package.
    pub open spec fn wf(&self) -> bool {
        self.found <==> self.package is Some
    }
}

/// Decides an exact-name lookup from the registry's result set: an
/// empty set means not found; a non-empty set means found, surfacing
/// the first entry only.
pub fn info_from_results(res: SearchResults) -> (r: InfoResults)
    ensures
        r.wf(),
        r.found <==> res.results@.len() > 0,
        res.results@.len() > 0 ==> r.package == Some(res.results@[0]),
        res.results@.len() == 0 ==> r.package is None,
{
    let mut results = res.results;
    if results.len() == 0 {
        InfoResults { found: false, package: None }
    } else {
        let first = results.remove(0);
        InfoResults { found: true, package: Some(first) }
    }
}

} // verus!
