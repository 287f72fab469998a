use scip_build::locate::{lib_scip_in_dir, validate_location, LinkKind};
use scip_build::strutil::{str_contains, str_ends_with, str_eq, str_starts_with};

#[test]
fn locator_accepts_canonical_library_names() {
    assert!(lib_scip_in_dir(&vec!["libscip.so".to_string()]));
    assert!(lib_scip_in_dir(&vec!["libscipsolver.9.1.dylib".to_string()]));
    assert!(lib_scip_in_dir(&vec!["readme".to_string(), "libscip.a".to_string()]));
}

#[test]
fn locator_rejects_directories_without_the_library() {
    assert!(!lib_scip_in_dir(&vec![]));
    assert!(!lib_scip_in_dir(&vec!["scip.so".to_string()]));
    assert!(!lib_scip_in_dir(&vec!["libsoplex.a".to_string(), "libsci".to_string()]));
}

#[test]
fn validation_requires_library_and_both_headers() {
    let root = "/opt/scip".to_string();
    let entries = vec!["libscip.so".to_string()];
    let loc = validate_location(&root, &entries, true, true, LinkKind::Dynamic).unwrap();
    assert_eq!(loc.root, "/opt/scip");
    assert_eq!(loc.lib_dir, "/opt/scip/lib");
    assert_eq!(loc.link_kind, LinkKind::Dynamic);

    assert!(validate_location(&root, &entries, false, true, LinkKind::Dynamic).is_err());
    assert!(validate_location(&root, &entries, true, false, LinkKind::Dynamic).is_err());
    let bad = vec!["libsoplex.a".to_string()];
    assert!(validate_location(&root, &bad, true, true, LinkKind::Dynamic).is_err());
}

#[test]
fn string_equality_is_exact() {
    assert!(str_eq("", ""));
    assert!(str_eq("scip", "scip"));
    assert!(!str_eq("scip", "scip "));
    assert!(!str_eq("scip", "SCIP"));
}

#[test]
fn prefix_and_suffix_tests() {
    assert!(str_starts_with("libscip.so", "libscip"));
    assert!(str_starts_with("anything", ""));
    assert!(!str_starts_with("lib", "libscip"));
    assert!(str_ends_with("archive.zip", ".zip"));
    assert!(str_ends_with("", ""));
    assert!(!str_ends_with("zip", ".zip"));
}

#[test]
fn substring_test() {
    assert!(str_contains("x86_64-unknown-linux-gnu", "linux"));
    assert!(str_contains("abc", ""));
    assert!(!str_contains("x86_64-apple-darwin", "linux"));
    assert!(!str_contains("", "a"));
    assert!(str_contains("aab", "ab"));
}
