use ame::error::AppError;
use ame::rpc::{InfoResults, Package};
use ame::upgrade::{
    effective_targets, foreign_query_args, is_upgradable, parse_foreign_listing,
    select_upgradable, system_upgrade_args, UpgradeArgs,
};

fn package(name: &str, version: &str) -> Package {
    Package {
        name: name.to_string(),
        version: version.to_string(),
        description: None,
        depends: Vec::new(),
        make_depends: Vec::new(),
        opt_depends: Vec::new(),
        out_of_date: None,
    }
}

fn found(name: &str, version: &str) -> InfoResults {
    InfoResults { found: true, package: Some(package(name, version)) }
}

fn not_found() -> InfoResults {
    InfoResults { found: false, package: None }
}

#[test]
fn neither_flag_means_both_subsystems() {
    let r = effective_targets(UpgradeArgs { aur: false, repo: false });
    assert_eq!(r, UpgradeArgs { aur: true, repo: true });
}

#[test]
fn explicit_flags_are_kept() {
    let r = effective_targets(UpgradeArgs { aur: true, repo: false });
    assert_eq!(r, UpgradeArgs { aur: true, repo: false });
    let r = effective_targets(UpgradeArgs { aur: false, repo: true });
    assert_eq!(r, UpgradeArgs { aur: false, repo: true });
}

#[test]
fn system_upgrade_arguments() {
    assert_eq!(system_upgrade_args(false), vec!["-Syu".to_string()]);
    assert_eq!(
        system_upgrade_args(true),
        vec!["-Syu".to_string(), "--noconfirm".to_string()]
    );
}

#[test]
fn foreign_query_arguments() {
    assert_eq!(
        foreign_query_args(),
        vec!["-Qm".to_string(), "--color".to_string(), "never".to_string()]
    );
}

#[test]
fn listing_parses_name_version_pairs() {
    let pkgs = parse_foreign_listing("foo 1.0-1\nbar 2.3-4\n").unwrap();
    assert_eq!(pkgs.len(), 2);
    assert_eq!(pkgs[0].name, "foo");
    assert_eq!(pkgs[0].version, "1.0-1");
    assert_eq!(pkgs[1].name, "bar");
    assert_eq!(pkgs[1].version, "2.3-4");
}

#[test]
fn listing_without_trailing_newline_still_parses() {
    let pkgs = parse_foreign_listing("foo 1.0-1").unwrap();
    assert_eq!(pkgs.len(), 1);
    assert_eq!(pkgs[0].name, "foo");
}

#[test]
fn empty_listing_parses_to_nothing() {
    let pkgs = parse_foreign_listing("").unwrap();
    assert!(pkgs.is_empty());
}

#[test]
fn single_token_line_is_a_parse_error() {
    let r = parse_foreign_listing("foo\n");
    assert!(matches!(r, Err(AppError::Parse(_))));
}

#[test]
fn malformed_line_fails_the_whole_listing() {
    let r = parse_foreign_listing("foo 1.0-1\nbar\n");
    assert!(matches!(r, Err(AppError::Parse(_))));
}

#[test]
fn only_minus_one_marks_upgradable() {
    assert!(is_upgradable(true, "-1\n"));
    assert!(!is_upgradable(true, "0\n"));
    assert!(!is_upgradable(true, "1\n"));
    assert!(is_upgradable(true, "  -1  "));
    assert!(!is_upgradable(true, ""));
}

#[test]
fn packages_not_found_upstream_are_never_upgradable() {
    assert!(!is_upgradable(false, "-1\n"));
}

#[test]
fn newer_upstream_version_is_collected() {
    let pkgs = parse_foreign_listing("foo 1.0-1\n").unwrap();
    let infos = vec![found("foo", "1.1-1")];
    let cmps = vec!["-1\n".to_string()];
    let upgrades = select_upgradable(&pkgs, &infos, &cmps);
    assert_eq!(upgrades, vec!["foo".to_string()]);
}

#[test]
fn equal_versions_leave_nothing_to_upgrade() {
    let pkgs = parse_foreign_listing("foo 1.0-1\n").unwrap();
    let infos = vec![found("foo", "1.0-1")];
    let cmps = vec!["0\n".to_string()];
    let upgrades = select_upgradable(&pkgs, &infos, &cmps);
    assert!(upgrades.is_empty());
}

#[test]
fn untracked_package_is_silently_excluded() {
    let pkgs = parse_foreign_listing("bar 2.0-1\n").unwrap();
    let infos = vec![not_found()];
    let cmps = vec![String::new()];
    let upgrades = select_upgradable(&pkgs, &infos, &cmps);
    assert!(upgrades.is_empty());
}

#[test]
fn upgradable_names_keep_listing_order() {
    let pkgs = parse_foreign_listing("a 1\nb 1\nc 1\n").unwrap();
    let infos = vec![found("a", "2"), found("b", "1"), found("c", "2")];
    let cmps = vec!["-1".to_string(), "0".to_string(), "-1".to_string()];
    let upgrades = select_upgradable(&pkgs, &infos, &cmps);
    assert_eq!(upgrades, vec!["a".to_string(), "c".to_string()]);
}
