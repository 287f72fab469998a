use scip_build::emit::{
    blocked_items, cxx_runtime, emit_directives, include_arg, scip_lib_name, soplex_lib_name,
    Directive, LinkSpecifier,
};
use scip_build::locate::{LibraryLocation, LinkKind};
use scip_build::platform::Os;

fn location(root: &str) -> LibraryLocation {
    LibraryLocation::from_root(&root.to_string(), LinkKind::Dynamic)
}

#[test]
fn location_paths_follow_install_tree_layout() {
    let loc = location("/opt/scip");
    assert_eq!(loc.root, "/opt/scip");
    assert_eq!(loc.lib_dir, "/opt/scip/lib");
    assert_eq!(loc.bin_dir, "/opt/scip/bin");
    assert_eq!(loc.include_dir, "/opt/scip/include");
    assert_eq!(loc.scip_header, "/opt/scip/include/scip/scip.h");
    assert_eq!(loc.defplugins_header, "/opt/scip/include/scip/scipdefplugins.h");
}

#[test]
fn linux_directives_without_source_build() {
    let loc = location("/opt/scip");
    let directives = emit_directives(&loc, Os::Linux, "x86_64-unknown-linux-gnu", false);
    assert_eq!(
        directives,
        vec![
            Directive::LinkSearch { path: "/opt/scip/lib".to_string() },
            Directive::LibDir { path: "/opt/scip/lib".to_string() },
            Directive::RuntimePath { path: "/opt/scip/lib".to_string() },
            Directive::LinkLib { kind: LinkSpecifier::Unspecified, name: "scip".to_string() },
        ]
    );
}

#[test]
fn windows_directives_add_bin_search_and_lib_prefix() {
    let loc = location("C:/scip");
    let directives = emit_directives(&loc, Os::Windows, "x86_64-pc-windows-msvc", false);
    assert_eq!(
        directives,
        vec![
            Directive::LinkSearch { path: "C:/scip/lib".to_string() },
            Directive::LibDir { path: "C:/scip/lib".to_string() },
            Directive::LinkSearch { path: "C:/scip/bin".to_string() },
            Directive::RuntimePath { path: "C:/scip/lib".to_string() },
            Directive::LinkLib { kind: LinkSpecifier::Unspecified, name: "libscip".to_string() },
        ]
    );
}

#[test]
fn source_build_links_cxx_runtime_and_soplex() {
    let loc = location("/out");
    let directives = emit_directives(&loc, Os::Linux, "x86_64-unknown-linux-gnu", true);
    let tail = &directives[directives.len() - 2..];
    assert_eq!(
        tail,
        &[
            Directive::LinkLib { kind: LinkSpecifier::Dylib, name: "stdc++".to_string() },
            Directive::LinkLib { kind: LinkSpecifier::Unspecified, name: "soplex".to_string() },
        ]
    );
}

#[test]
fn source_build_on_apple_links_apple_runtime() {
    let loc = location("/out");
    let directives = emit_directives(&loc, Os::MacOs, "aarch64-apple-darwin", true);
    assert!(directives.contains(&Directive::LinkLib {
        kind: LinkSpecifier::Dylib,
        name: "c++".to_string()
    }));
}

#[test]
fn source_build_on_msvc_links_no_cxx_runtime() {
    let loc = location("C:/out");
    let directives = emit_directives(&loc, Os::Windows, "x86_64-pc-windows-msvc", true);
    assert!(!directives
        .iter()
        .any(|d| matches!(d, Directive::LinkLib { kind: LinkSpecifier::Dylib, .. })));
    assert_eq!(
        directives.last(),
        Some(&Directive::LinkLib {
            kind: LinkSpecifier::Unspecified,
            name: "libsoplex".to_string()
        })
    );
}

#[test]
fn cxx_runtime_table() {
    assert_eq!(cxx_runtime("aarch64-apple-darwin"), Some("c++".to_string()));
    assert_eq!(cxx_runtime("x86_64-unknown-linux-gnu"), Some("stdc++".to_string()));
    assert_eq!(cxx_runtime("x86_64-pc-windows-gnu"), Some("stdc++".to_string()));
    assert_eq!(cxx_runtime("x86_64-pc-windows-msvc"), None);
}

#[test]
fn lib_name_table() {
    assert_eq!(scip_lib_name(Os::Linux).as_str(), "scip");
    assert_eq!(scip_lib_name(Os::MacOs).as_str(), "scip");
    assert_eq!(scip_lib_name(Os::Windows).as_str(), "libscip");
    assert_eq!(soplex_lib_name(Os::Linux).as_str(), "soplex");
    assert_eq!(soplex_lib_name(Os::Windows).as_str(), "libsoplex");
}

#[test]
fn include_arg_points_at_include_dir() {
    let loc = location("/opt/scip");
    assert_eq!(include_arg(&loc).as_str(), "-I/opt/scip/include");
}

#[test]
fn blocked_items_name_float_classification_symbols() {
    let blocked = blocked_items();
    let expected = ["FP_NAN", "FP_INFINITE", "FP_ZERO", "FP_SUBNORMAL", "FP_NORMAL"];
    assert_eq!(blocked.len(), expected.len());
    for (got, want) in blocked.iter().zip(expected.iter()) {
        assert_eq!(got.as_str(), *want);
    }
}
