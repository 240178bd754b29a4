use ame::clean::{cache_clear_args, paccache_args, parse_orphan_list, removal_args};

#[test]
fn orphan_listing_keeps_nonempty_lines_in_order() {
    let orphans = parse_orphan_list("foo\nbar\n\nbaz\n");
    assert_eq!(
        orphans,
        vec!["foo".to_string(), "bar".to_string(), "baz".to_string()]
    );
}

#[test]
fn empty_orphan_listing_yields_nothing() {
    assert!(parse_orphan_list("").is_empty());
    assert!(parse_orphan_list("\n\n").is_empty());
}

#[test]
fn orphan_listing_without_trailing_newline() {
    assert_eq!(parse_orphan_list("foo\nbar"), vec!["foo".to_string(), "bar".to_string()]);
}

#[test]
fn removal_arguments_list_every_orphan() {
    let orphans = vec!["foo".to_string(), "bar".to_string()];
    assert_eq!(
        removal_args(&orphans, false),
        vec!["-Rns".to_string(), "foo".to_string(), "bar".to_string()]
    );
    assert_eq!(
        removal_args(&orphans, true),
        vec![
            "-Rns".to_string(),
            "--noconfirm".to_string(),
            "foo".to_string(),
            "bar".to_string()
        ]
    );
}

#[test]
fn cache_clearing_arguments() {
    assert_eq!(cache_clear_args(false), vec!["-Sc".to_string()]);
    assert_eq!(
        cache_clear_args(true),
        vec!["-Sc".to_string(), "--noconfirm".to_string()]
    );
    assert_eq!(paccache_args(false), vec!["-r".to_string()]);
    assert_eq!(
        paccache_args(true),
        vec!["-r".to_string(), "--noconfirm".to_string()]
    );
}
