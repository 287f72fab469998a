//! The prebuilt-download strategy: the artifact URL of the host platform
//! and the decision whether a download is needed at all. Artifact naming
//! follows `<base-url>/<platform-tag>[-debug].zip` against a versioned,
//! immutable release location.

use vstd::prelude::*;
use crate::platform::{artifact_tag, identify, spec_artifact_tag, spec_identify, UnsupportedPlatform};
use vstd::string::StringExecFns;

verus! {

/// The URL of the prebuilt artifact with the given platform tag.
pub open spec fn spec_prebuilt_url(tag: Seq<char>, debug: bool) -> Seq<char> {
    "https://github.com/scipopt/scipoptsuite-deploy/releases/download/v0.8.0/libscip-"@ + tag
        + (if debug {
        "-debug"@
    } else {
        Seq::<char>::empty()
    }) + ".zip"@
}

/// The plan of the prebuilt-download strategy.
#[derive(Clone, Debug, PartialEq, Eq)]
pub enum DownloadPlan {
    /// The destination already holds an extracted installation; the
    /// download is skipped entirely.
    AlreadyInstalled,
    /// Retrieve the artifact at `url` and extract it into the destination.
    Fetch { url: String },
}

/// Decides the prebuilt-download step. `already_installed` records whether
/// the destination already holds an extracted installation — if so, nothing
/// is fetched. Otherwise the host's OS and architecture names select the
/// artifact URL, and an unsupported pair is rejected outright.
pub fn download_scip(
    os_name: &str,
    arch_name: &str,
    debug: bool,
    already_installed: bool,
) -> (r: Result<DownloadPlan, UnsupportedPlatform>)
    ensures
        already_installed ==> r == Ok::<DownloadPlan, UnsupportedPlatform>(
            DownloadPlan::AlreadyInstalled,
        ),
        !already_installed ==> match spec_identify(os_name@, arch_name@) {
            Some(tag) => {
                &&& spec_artifact_tag(tag.os, tag.arch) matches Some(t)
                &&& r matches Ok(DownloadPlan::Fetch { url })
                &&& url@ == spec_prebuilt_url(t, debug)
            },
            None => r is Err,
        },
{
    if already_installed {
        return Ok(DownloadPlan::AlreadyInstalled);
    }
    let tag = match identify(os_name, arch_name) {
        Ok(tag) => tag,
        Err(e) => {
            return Err(e);
        },
    };
    let tag_str = match artifact_tag(&tag) {
        Ok(s) => s,
        Err(e) => {
            return Err(e);
        },
    };
    let mut url = String::from_str(
        "https://github.com/scipopt/scipoptsuite-deploy/releases/download/v0.8.0/libscip-",
    );
    url.append(tag_str.as_str());
    if debug {
        url.append("-debug");
    }
    url.append(".zip");
    proof {
        assert(url@ =~= spec_prebuilt_url(tag_str@, debug));
    }
    Ok(DownloadPlan::Fetch { url })
}

} // verus!
