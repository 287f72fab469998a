//! The compile-from-source strategy: where the source archive comes from,
//! and the fixed configuration profile handed to the external native build
//! system. Compiling is the slowest and most failure-prone acquisition
//! path, used only when explicitly requested.

use vstd::prelude::*;
use vstd::string::StringExecFns;

verus! {

/// The solver version fetched when compiling from source.
pub open spec fn spec_scip_version() -> Seq<char> {
    "9.1.1"@
}

/// Name of the directory that extracting the source archive yields.
pub open spec fn spec_source_dir_name() -> Seq<char> {
    "scipoptsuite-"@ + spec_scip_version()
}

/// The URL of the source archive.
pub open spec fn spec_source_url() -> Seq<char> {
    "https://github.com/scipopt/scip-sys/releases/download/v0.1.9/"@ + spec_source_dir_name()
        + ".zip"@
}

/// Name of the directory that extracting the source archive yields, beside
/// the destination directory. The caller checks for it to decide whether a
/// prior download can be reused.
pub fn source_dir_name() -> (r: String)
    ensures
        r@ == spec_source_dir_name(),
{
    let mut name = String::from_str("scipoptsuite-");
    name.append("9.1.1");
    name
}

/// The plan of the source-acquisition step.
#[derive(Clone, Debug, PartialEq, Eq)]
pub enum SourcePlan {
    /// The source tree was extracted by a prior run; reuse it.
    AlreadyDownloaded,
    /// Retrieve the source archive at `url` and extract it beside the
    /// destination.
    Fetch { url: String },
}

/// Decides the source-acquisition step. `already_downloaded` records
/// whether the source tree of the pinned version is already extracted; if
/// so, nothing is fetched.
pub fn download_scip_source(already_downloaded: bool) -> (r: SourcePlan)
    ensures
        already_downloaded ==> r == SourcePlan::AlreadyDownloaded,
        !already_downloaded ==> (r matches SourcePlan::Fetch { url } && url@
            == spec_source_url()),
{
    if already_downloaded {
        return SourcePlan::AlreadyDownloaded;
    }
    let mut url = String::from_str("https://github.com/scipopt/scip-sys/releases/download/v0.1.9/");
    url.append("scipoptsuite-");
    url.append("9.1.1");
    url.append(".zip");
    proof {
        assert(url@ =~= spec_source_url());
    }
    SourcePlan::Fetch { url }
}

/// One definition handed to the external build system's configuration.
#[derive(Clone, Debug, PartialEq, Eq)]
pub struct BuildDefine {
    pub name: String,
    pub value: String,
}

/// The fixed configuration profile of a source build: the optional heavy
/// dependencies (symbolic math, GUI readline, third-party numerics and
/// compression) are disabled, one symmetry-detection backend is selected,
/// and the build is static.
pub open spec fn spec_build_profile() -> Seq<(Seq<char>, Seq<char>)> {
    seq![
        ("IPOPT"@, "OFF"@),
        ("ZIMPL"@, "OFF"@),
        ("GMP"@, "OFF"@),
        ("READLINE"@, "OFF"@),
        ("BOOST"@, "OFF"@),
        ("AUTOBUILD"@, "OFF"@),
        ("PAPILO"@, "OFF"@),
        ("SYM"@, "snauty"@),
        ("ZLIB"@, "OFF"@),
        ("SHARED"@, "OFF"@),
    ]
}

/// The plan of the compilation step.
#[derive(Clone, Debug, PartialEq, Eq)]
pub enum CompilePlan {
    /// The install directory already holds a `lib/` subtree from a prior
    /// compilation; reuse it.
    AlreadyCompiled,
    /// Configure the external build system with exactly these definitions
    /// and run it against the source tree.
    Configure { defines: Vec<BuildDefine> },
}

fn build_define(name: &str, value: &str) -> (r: BuildDefine)
    ensures
        r.name@ == name@,
        r.value@ == value@,
{
    BuildDefine { name: String::from_str(name), value: String::from_str(value) }
}

/// Decides the compilation step. `already_compiled` records whether the
/// install directory already holds a `lib/` subtree; if so, compilation is
/// skipped. Otherwise the external build system is to be configured with
/// exactly the fixed profile.
pub fn compile_scip(already_compiled: bool) -> (r: CompilePlan)
    ensures
        already_compiled ==> r == CompilePlan::AlreadyCompiled,
        !already_compiled ==> (r matches CompilePlan::Configure { defines }
            && defines@.map_values(|d: BuildDefine| (d.name@, d.value@))
            == spec_build_profile()),
{
    if already_compiled {
        return CompilePlan::AlreadyCompiled;
    }
    let mut defines: Vec<BuildDefine> = Vec::new();
    defines.push(build_define("IPOPT", "OFF"));
    defines.push(build_define("ZIMPL", "OFF"));
    defines.push(build_define("GMP", "OFF"));
    defines.push(build_define("READLINE", "OFF"));
    defines.push(build_define("BOOST", "OFF"));
    defines.push(build_define("AUTOBUILD", "OFF"));
    defines.push(build_define("PAPILO", "OFF"));
    defines.push(build_define("SYM", "snauty"));
    defines.push(build_define("ZLIB", "OFF"));
    defines.push(build_define("SHARED", "OFF"));
    proof {
        assert(defines@.map_values(|d: BuildDefine| (d.name@, d.value@))
            =~= spec_build_profile());
    }
    CompilePlan::Configure { defines }
}

} // verus!
