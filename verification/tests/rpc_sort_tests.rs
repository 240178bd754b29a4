use ame::rpc::{info_from_results, Package, SearchResults};
use ame::sort::sort;

fn package(name: &str, version: &str) -> Package {
    Package {
        name: name.to_string(),
        version: version.to_string(),
        description: None,
        depends: Vec::new(),
        make_depends: Vec::new(),
        opt_depends: Vec::new(),
        out_of_date: None,
    }
}

#[test]
fn empty_results_mean_not_found_without_package() {
    let r = info_from_results(SearchResults { resultcount: 0, results: Vec::new() });
    assert!(!r.found);
    assert!(r.package.is_none());
}

#[test]
fn nonempty_results_surface_the_first_entry() {
    let results = vec![package("foo", "1.0-1"), package("foo-git", "0.9-1")];
    let r = info_from_results(SearchResults { resultcount: 2, results });
    assert!(r.found);
    let p = r.package.unwrap();
    assert_eq!(p.name, "foo");
    assert_eq!(p.version, "1.0-1");
}

#[test]
fn classify_partitions_names_in_input_order() {
    let names = vec![
        "a".to_string(),
        "b".to_string(),
        "c".to_string(),
        "d".to_string(),
    ];
    let found = vec![true, false, true, false];
    let r = sort(&names, &found);
    assert!(r.repo.is_empty());
    assert_eq!(r.aur, vec!["a".to_string(), "c".to_string()]);
    assert_eq!(r.nf, vec!["b".to_string(), "d".to_string()]);
    let mut union: Vec<String> = Vec::new();
    union.extend(r.aur.iter().cloned());
    union.extend(r.nf.iter().cloned());
    union.sort();
    let mut input = names.clone();
    input.sort();
    assert_eq!(union, input);
}

#[test]
fn classify_of_empty_input_is_empty() {
    let r = sort(&Vec::new(), &Vec::new());
    assert!(r.repo.is_empty());
    assert!(r.aur.is_empty());
    assert!(r.nf.is_empty());
}

#[test]
fn classify_with_all_found_fills_only_the_remote_bucket() {
    let names = vec!["x".to_string(), "y".to_string()];
    let found = vec![true, true];
    let r = sort(&names, &found);
    assert_eq!(r.aur, names);
    assert!(r.nf.is_empty());
}
