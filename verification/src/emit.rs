//! The link/build emitter: the directives handed to the surrounding build
//! once a location is resolved. This step has no decision logic beyond
//! table lookups keyed by platform, but the platform-conditional library
//! name table must be reproduced faithfully — a wrong name surfaces only
//! much later, as a silent link failure.

use vstd::prelude::*;
use crate::locate::LibraryLocation;
use crate::platform::Os;
use crate::strutil::{contains_seq, str_contains};
use vstd::string::StringExecFns;

verus! {

/// How a link directive names its library to the linker.
#[derive(Clone, Copy, Debug, PartialEq, Eq, Structural)]
pub enum LinkSpecifier {
    /// Leave the choice between static and dynamic to the linker.
    Unspecified,
    /// Force dynamic linking.
    Dylib,
}

/// One directive for the surrounding build. The emitter returns them in
/// the order they are to be issued.
#[derive(Clone, Debug, PartialEq, Eq)]
pub enum Directive {
    /// Add a linker search path.
    LinkSearch { path: String },
    /// Publish the library directory to dependent builds.
    LibDir { path: String },
    /// Add a runtime search path for dynamic linking.
    RuntimePath { path: String },
    /// Link a library.
    LinkLib { kind: LinkSpecifier, name: String },
}

/// The directives locating the resolved installation: the linker search
/// path, the published library directory, on Windows additionally the
/// binary directory, and the runtime search path.
pub open spec fn spec_location_directives(loc: LibraryLocation, os: Os) -> Seq<Directive> {
    let base = seq![
        Directive::LinkSearch { path: loc.lib_dir },
        Directive::LibDir { path: loc.lib_dir },
    ];
    let base = if os == Os::Windows {
        base.push(Directive::LinkSearch { path: loc.bin_dir })
    } else {
        base
    };
    base.push(Directive::RuntimePath { path: loc.lib_dir })
}

/// The platform-conditional name of the solver library.
pub open spec fn spec_scip_lib_name(os: Os) -> Seq<char> {
    if os == Os::Windows {
        "libscip"@
    } else {
        "scip"@
    }
}

/// The platform-conditional name of the bundled linear-programming solver
/// library, linked in addition when the solver was built from source.
pub open spec fn spec_soplex_lib_name(os: Os) -> Seq<char> {
    if os == Os::Windows {
        "libsoplex"@
    } else {
        "soplex"@
    }
}

/// The host's standard C++ runtime, read off the target description: the
/// Apple runtime, the GNU runtime on Linux and MinGW targets, none
/// elsewhere.
pub open spec fn spec_cxx_runtime(target: Seq<char>) -> Option<Seq<char>> {
    if contains_seq(target, "apple"@) {
        Some("c++"@)
    } else if contains_seq(target, "linux"@) || contains_seq(target, "pc-windows-gnu"@) {
        Some("stdc++"@)
    } else {
        None
    }
}

/// The platform-conditional name of the solver library.
pub fn scip_lib_name(os: Os) -> (r: String)
    ensures
        r@ == spec_scip_lib_name(os),
{
    if os == Os::Windows {
        String::from_str("libscip")
    } else {
        String::from_str("scip")
    }
}

/// The platform-conditional name of the bundled linear-programming solver
/// library.
pub fn soplex_lib_name(os: Os) -> (r: String)
    ensures
        r@ == spec_soplex_lib_name(os),
{
    if os == Os::Windows {
        String::from_str("libsoplex")
    } else {
        String::from_str("soplex")
    }
}

/// The host's standard C++ runtime, read off the target description.
pub fn cxx_runtime(target: &str) -> (r: Option<String>)
    ensures
        match r {
            Some(name) => spec_cxx_runtime(target@) == Some(name@),
            None => spec_cxx_runtime(target@) is None,
        },
{
    if str_contains(target, "apple") {
        Some(String::from_str("c++"))
    } else if str_contains(target, "linux") || str_contains(target, "pc-windows-gnu") {
        Some(String::from_str("stdc++"))
    } else {
        None
    }
}

/// Emits every directive of a resolved location, in order: the location
/// directives, then the solver link directive, and — when the solver was
/// built from source — the host's C++ runtime and the bundled
/// linear-programming solver.
pub fn emit_directives(loc: &LibraryLocation, os: Os, target: &str, from_source: bool) -> (r: Vec<
    Directive,
>)
    ensures
        ({
            let locs = spec_location_directives(*loc, os);
            let n = locs.len() as int;
            &&& r@.len() > n
            &&& r@.subrange(0, n) == locs
            &&& (r@[n] matches Directive::LinkLib { kind: LinkSpecifier::Unspecified, name }
                && name@ == spec_scip_lib_name(os))
            &&& (!from_source ==> r@.len() == n + 1)
            &&& (from_source ==> match spec_cxx_runtime(target@) {
                Some(cxx) => r@.len() == n + 3 && (r@[n + 1] matches Directive::LinkLib {
                    kind: LinkSpecifier::Dylib,
                    name,
                } && name@ == cxx) && (r@[n + 2] matches Directive::LinkLib {
                    kind: LinkSpecifier::Unspecified,
                    name,
                } && name@ == spec_soplex_lib_name(os)),
                None => r@.len() == n + 2 && (r@[n + 1] matches Directive::LinkLib {
                    kind: LinkSpecifier::Unspecified,
                    name,
                } && name@ == spec_soplex_lib_name(os)),
            })
        }),
{
    let mut out: Vec<Directive> = Vec::new();
    out.push(Directive::LinkSearch { path: loc.lib_dir.clone() });
    out.push(Directive::LibDir { path: loc.lib_dir.clone() });
    if os == Os::Windows {
        out.push(Directive::LinkSearch { path: loc.bin_dir.clone() });
    }
    out.push(Directive::RuntimePath { path: loc.lib_dir.clone() });
    proof {
        assert(out@ =~= spec_location_directives(*loc, os));
    }
    out.push(Directive::LinkLib { kind: LinkSpecifier::Unspecified, name: scip_lib_name(os) });
    if from_source {
        match cxx_runtime(target) {
            Some(cxx) => {
                out.push(Directive::LinkLib { kind: LinkSpecifier::Dylib, name: cxx });
            },
            None => {},
        }
        out.push(
            Directive::LinkLib { kind: LinkSpecifier::Unspecified, name: soplex_lib_name(os) },
        );
    }
    proof {
        let locs = spec_location_directives(*loc, os);
        assert(out@.subrange(0, locs.len() as int) =~= locs);
    }
    out
}

/// The compiler include argument pointing the header parser at the
/// resolved include directory.
pub fn include_arg(loc: &LibraryLocation) -> (r: String)
    ensures
        r@ == "-I"@ + loc.include_dir@,
{
    let mut arg = String::from_str("-I");
    arg.append(loc.include_dir.as_str());
    arg
}

/// The fixed block-list of generated declarations: a handful of symbols
/// from the headers known to collide with host-language floating-point
/// classification names.
pub open spec fn spec_blocked_items() -> Seq<Seq<char>> {
    seq!["FP_NAN"@, "FP_INFINITE"@, "FP_ZERO"@, "FP_SUBNORMAL"@, "FP_NORMAL"@]
}

/// The fixed block-list of generated declarations.
pub fn blocked_items() -> (r: Vec<String>)
    ensures
        r.deep_view() == spec_blocked_items(),
{
    let mut out: Vec<String> = Vec::new();
    out.push(String::from_str("FP_NAN"));
    out.push(String::from_str("FP_INFINITE"));
    out.push(String::from_str("FP_ZERO"));
    out.push(String::from_str("FP_SUBNORMAL"));
    out.push(String::from_str("FP_NORMAL"));
    proof {
        assert(out.deep_view() =~= spec_blocked_items());
    }
    out
}

} // verus!
