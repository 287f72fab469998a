//! Decisions of the archive fetcher. The transfer, the temporary file and
//! the extraction are carried out by the surrounding application; this
//! module decides what they mean: the failure taxonomy of a fetch, the
//! detection of a wrapped artifact (an archive whose single top-level entry
//! is itself an archive), and the conventional name of the directory that
//! receives the nested archive's contents.

use vstd::prelude::*;
use crate::strutil::{is_suffix_of, str_ends_with};
use vstd::string::{StrSliceExecFns, StringExecFns};

verus! {

broadcast use vstd::set::group_set_axioms;

/// The transfer budget, in seconds. Artifacts can be large, so the budget
/// is several minutes; past it the transfer fails rather than hangs.
pub const TRANSFER_TIMEOUT_SECS: u64 = 300;

/// The phase of a fetch in which a failure occurred. A fetch is
/// all-or-nothing: a failure in any phase is fatal for the strategy that
/// committed to it.
#[derive(Clone, Copy, Debug, PartialEq, Eq, Structural)]
pub enum FetchPhase {
    /// Retrieving the archive over the network.
    Transfer,
    /// Persisting the archive to a scoped temporary file.
    Persist,
    /// Extracting the archive into the destination.
    Extract,
    /// Extracting the nested archive of a wrapped artifact.
    NestedExtract,
    /// Removing the intermediate nested archive.
    Cleanup,
}

/// A fetch failure, tagged with the failing phase for diagnostics.
#[derive(Clone, Debug, PartialEq, Eq)]
pub struct FetchError {
    pub phase: FetchPhase,
    pub detail: String,
}

/// A short name of each phase, for diagnostics.
pub fn phase_name(phase: FetchPhase) -> (r: String)
    ensures
        phase == FetchPhase::Transfer ==> r@ == "transfer"@,
        phase == FetchPhase::Persist ==> r@ == "persist"@,
        phase == FetchPhase::Extract ==> r@ == "extract"@,
        phase == FetchPhase::NestedExtract ==> r@ == "nested extract"@,
        phase == FetchPhase::Cleanup ==> r@ == "cleanup"@,
{
    match phase {
        FetchPhase::Transfer => String::from_str("transfer"),
        FetchPhase::Persist => String::from_str("persist"),
        FetchPhase::Extract => String::from_str("extract"),
        FetchPhase::NestedExtract => String::from_str("nested extract"),
        FetchPhase::Cleanup => String::from_str("cleanup"),
    }
}

/// The file name designates an archive: a `.zip` extension behind a
/// nonempty stem.
pub open spec fn is_zip_name(name: Seq<char>) -> bool {
    name.len() > ".zip"@.len() && is_suffix_of(".zip"@, name)
}

/// Extraction yielded a wrapped artifact: exactly one top-level entry,
/// itself an archive.
pub open spec fn is_wrapped(entries: Seq<Seq<char>>) -> bool {
    entries.len() == 1 && is_zip_name(entries[0])
}

/// Conventional name of the subdirectory that receives the contents of a
/// wrapped artifact's nested archive. The same name marks a destination as
/// already installed on a later run.
pub open spec fn spec_install_dir_name() -> Seq<char> {
    "scip_install"@
}

/// Conventional name of the subdirectory that receives the contents of a
/// wrapped artifact's nested archive.
pub fn install_dir_name() -> (r: String)
    ensures
        r@ == spec_install_dir_name(),
{
    String::from_str("scip_install")
}

/// Decides the nested-extraction step from the top-level entry names the
/// outer extraction left in the destination. Returns the name of the
/// nested archive exactly when the artifact is wrapped; the caller then
/// extracts it into [`install_dir_name`] and removes it.
pub fn nested_archive(entries: &Vec<String>) -> (r: Option<String>)
    ensures
        match r {
            Some(name) => is_wrapped(entries.deep_view()) && name@ == entries.deep_view()[0],
            None => !is_wrapped(entries.deep_view()),
        },
{
    if entries.len() == 1 {
        let name = &entries[0];
        if name.as_str().unicode_len() > ".zip".unicode_len() && str_ends_with(
            name.as_str(),
            ".zip",
        ) {
            return Some(name.clone());
        }
    }
    None
}

/// The destination directory after the nested extraction, on the model of
/// a directory as the set of its top-level entry names: the nested archive
/// is removed and the conventional install directory appears.
pub open spec fn spec_after_nested_extraction(
    dir: Set<Seq<char>>,
    nested: Seq<char>,
) -> Set<Seq<char>> {
    dir.remove(nested).insert(spec_install_dir_name())
}

/// Round trip over a wrapped artifact, on the directory model: after the
/// nested extraction completes, the intermediate nested archive no longer
/// exists and the conventional install directory does.
pub proof fn lemma_wrapped_round_trip(entries: Seq<Seq<char>>, nested: Seq<char>)
    requires
        is_wrapped(entries),
        nested == entries[0],
    ensures
        !spec_after_nested_extraction(entries.to_set(), nested).contains(nested),
        spec_after_nested_extraction(entries.to_set(), nested).contains(spec_install_dir_name()),
{
    reveal_strlit(".zip");
    reveal_strlit("scip_install");
    // The nested archive's name ends in `.zip`, so it cannot be the
    // install directory's name: their last characters differ.
    assert(".zip"@.len() == 4);
    assert("scip_install"@.len() == 12);
    if nested == spec_install_dir_name() {
        assert(nested[8int + 3] == ".zip"@[3]);
        assert("scip_install"@[11] == 'l');
        assert(false);
    }
}

} // verus!
