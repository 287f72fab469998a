//! The library locator: the predicate deciding whether a directory holds a
//! structurally complete install tree, and the validated location built from
//! a directory that passes it.
//!
//! The locator works on plain observations — the file names found under the
//! candidate's `lib/` subdirectory and the presence of the two required
//! headers — gathered by the surrounding application. Acquisition succeeding
//! at the transport level does not imply the artifact is structurally valid,
//! so every resolved location is re-validated here regardless of its source.

use vstd::prelude::*;
use crate::strutil::{is_prefix_of, str_starts_with};
use vstd::string::StringExecFns;

verus! {

/// The file name matches the solver's canonical library name pattern: it
/// begins with `libscip`.
pub open spec fn is_scip_lib_name(name: Seq<char>) -> bool {
    is_prefix_of("libscip"@, name)
}

/// At least one of the names matches the canonical library name pattern.
pub open spec fn has_scip_lib(lib_entries: Seq<Seq<char>>) -> bool {
    exists|i: int| 0 <= i < lib_entries.len() && is_scip_lib_name(lib_entries[i])
}

/// The locator predicate: given the file names found under a candidate
/// directory's `lib/` subdirectory, decides whether one of them is a library
/// binary of the solver.
pub fn lib_scip_in_dir(lib_entries: &Vec<String>) -> (r: bool)
    ensures
        r == has_scip_lib(lib_entries.deep_view()),
{
    let mut i: usize = 0;
    while i < lib_entries.len()
        invariant
            i <= lib_entries@.len(),
            forall|j: int| 0 <= j < i ==> !is_scip_lib_name(lib_entries.deep_view()[j]),
        decreases lib_entries@.len() - i,
    {
        if str_starts_with(lib_entries[i].as_str(), "libscip") {
            proof {
                assert(is_scip_lib_name(lib_entries.deep_view()[i as int]));
            }
            return true;
        }
        i = i + 1;
    }
    false
}

/// How the resolved library is linked into the consuming build.
#[derive(Clone, Copy, Debug, PartialEq, Eq, Structural)]
pub enum LinkKind {
    Dynamic,
    Static,
}

/// The candidate directory exists but is not a structurally complete
/// install tree. This is fatal for the strategy that produced the
/// candidate; the chain does not fall back past it.
#[derive(Clone, Copy, Debug, PartialEq, Eq, Structural)]
pub struct ValidationError;

/// A validated install tree: the conventional paths under its root, plus
/// the link kind the winning strategy selected.
#[derive(Clone, Debug, PartialEq, Eq)]
pub struct LibraryLocation {
    pub root: String,
    pub lib_dir: String,
    pub bin_dir: String,
    pub include_dir: String,
    pub scip_header: String,
    pub defplugins_header: String,
    pub link_kind: LinkKind,
}

impl LibraryLocation {
    /// The location's paths follow the conventional install-tree layout
    /// under its root.
    pub open spec fn wf(&self) -> bool {
        &&& self.lib_dir@ == self.root@ + "/lib"@
        &&& self.bin_dir@ == self.root@ + "/bin"@
        &&& self.include_dir@ == self.root@ + "/include"@
        &&& self.scip_header@ == self.root@ + "/include/scip/scip.h"@
        &&& self.defplugins_header@ == self.root@ + "/include/scip/scipdefplugins.h"@
    }

    /// Lays out the conventional install-tree paths under `root`.
    pub fn from_root(root: &String, link_kind: LinkKind) -> (r: LibraryLocation)
        ensures
            r.wf(),
            r.root@ == root@,
            r.link_kind == link_kind,
    {
        LibraryLocation {
            root: root.clone(),
            lib_dir: root.clone().concat("/lib"),
            bin_dir: root.clone().concat("/bin"),
            include_dir: root.clone().concat("/include"),
            scip_header: root.clone().concat("/include/scip/scip.h"),
            defplugins_header: root.clone().concat("/include/scip/scipdefplugins.h"),
            link_kind,
        }
    }
}

/// Validates a candidate install tree. `lib_entries` holds the file names
/// found under `root/lib`; the two header flags record whether the required
/// headers were found under `root/include/scip`. Succeeds exactly when the
/// locator predicate passes and both headers are present.
pub fn validate_location(
    root: &String,
    lib_entries: &Vec<String>,
    has_scip_header: bool,
    has_defplugins_header: bool,
    link_kind: LinkKind,
) -> (r: Result<LibraryLocation, ValidationError>)
    ensures
        match r {
            Ok(loc) => {
                &&& has_scip_lib(lib_entries.deep_view())
                &&& has_scip_header
                &&& has_defplugins_header
                &&& loc.wf()
                &&& loc.root@ == root@
                &&& loc.link_kind == link_kind
            },
            Err(_) => !(has_scip_lib(lib_entries.deep_view()) && has_scip_header
                && has_defplugins_header),
        },
{
    if lib_scip_in_dir(lib_entries) && has_scip_header && has_defplugins_header {
        Ok(LibraryLocation::from_root(root, link_kind))
    } else {
        Err(ValidationError)
    }
}

} // verus!
