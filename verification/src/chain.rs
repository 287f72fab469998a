//! The resolution strategy chain. Strategies are tried in a fixed priority
//! order — explicit environment directories first (user intent is
//! authoritative), then the package-registry probe, then prebuilt download,
//! then source compilation — and the chain commits to the first applicable
//! one. Applicability rests solely on cheap, side-effect-free observations
//! gathered beforehand into a [`HostSnapshot`]; once a strategy is
//! committed, any later failure inside it is the chain's terminal failure
//! and never falls through to a lower-priority strategy, since that would
//! mask a configuration error.

use vstd::prelude::*;
use crate::config::FeatureConfig;
use vstd::string::StringExecFns;

verus! {

/// The directory-valued environment variables probed by the chain, in
/// priority order.
#[derive(Clone, Copy, Debug, PartialEq, Eq, Structural)]
pub enum EnvSource {
    /// The explicit override naming a solver installation.
    ScipOptDir,
    /// The active package-environment prefix.
    CondaPrefix,
}

impl EnvSource {
    /// The variable's name in the build environment.
    pub fn name(&self) -> (r: String)
        ensures
            *self == EnvSource::ScipOptDir ==> r@ == "SCIPOPTDIR"@,
            *self == EnvSource::CondaPrefix ==> r@ == "CONDA_PREFIX"@,
    {
        match self {
            EnvSource::ScipOptDir => String::from_str("SCIPOPTDIR"),
            EnvSource::CondaPrefix => String::from_str("CONDA_PREFIX"),
        }
    }
}

/// What probing one directory-valued environment variable found.
#[derive(Clone, Debug, PartialEq, Eq)]
pub enum EnvDirProbe {
    /// The variable is not set.
    Unset,
    /// The variable names `dir`; `has_scip_lib` records whether the
    /// locator predicate passes on that directory.
    Present { dir: String, has_scip_lib: bool },
}

/// The environment-directory strategy is applicable: the variable is set
/// and its directory passes the locator. A variable naming a directory
/// that fails the locator makes the strategy inapplicable — the chain goes
/// on — rather than silently succeeding.
pub open spec fn env_dir_applicable(p: EnvDirProbe) -> bool {
    p matches EnvDirProbe::Present { has_scip_lib, .. } && has_scip_lib
}

/// One include path reported by the package registry, with the presence of
/// the two required headers under its `scip/` subdirectory.
#[derive(Clone, Debug, PartialEq, Eq)]
pub struct IncludeProbe {
    pub path: String,
    pub has_scip_header: bool,
    pub has_defplugins_header: bool,
}

/// What the package-registry probe found.
#[derive(Clone, Debug, PartialEq, Eq)]
pub enum RegistryProbe {
    /// The probe failed, or the registry knows no such package.
    Unavailable,
    /// The registry reported a package with these include paths.
    Found { include_paths: Vec<IncludeProbe> },
}

/// The first include path at or after `i` holding the primary header.
pub open spec fn first_scip_header_from(paths: Seq<IncludeProbe>, i: int) -> Option<int>
    decreases paths.len() + 1 - i,
{
    if i >= paths.len() {
        None
    } else if paths[i].has_scip_header {
        Some(i)
    } else {
        first_scip_header_from(paths, i + 1)
    }
}

/// The first include path at or after `i` holding the default-plugins
/// header.
pub open spec fn first_defplugins_header_from(paths: Seq<IncludeProbe>, i: int) -> Option<int>
    decreases paths.len() + 1 - i,
{
    if i >= paths.len() {
        None
    } else if paths[i].has_defplugins_header {
        Some(i)
    } else {
        first_defplugins_header_from(paths, i + 1)
    }
}

/// The registry strategy is applicable: the probe returned a package and
/// both required headers were found under its include paths.
pub open spec fn registry_applicable(r: RegistryProbe) -> bool {
    &&& r matches RegistryProbe::Found { include_paths }
    &&& first_scip_header_from(include_paths@, 0) is Some
    &&& first_defplugins_header_from(include_paths@, 0) is Some
}

/// Everything the chain consults before committing to a strategy: cheap,
/// side-effect-free observations of the host, gathered by the surrounding
/// application.
#[derive(Clone, Debug, PartialEq, Eq)]
pub struct HostSnapshot {
    pub scipoptdir: EnvDirProbe,
    pub conda_prefix: EnvDirProbe,
    pub registry: RegistryProbe,
}

/// The strategy the chain commits to.
#[derive(Clone, Copy, Debug, PartialEq, Eq, Structural)]
pub enum StrategyKind {
    EnvScipOptDir,
    EnvCondaPrefix,
    Registry,
    PrebuiltDownload,
    SourceCompile,
    NoStrategy,
}

/// The chain's decision: the first applicable strategy in priority order.
pub open spec fn spec_choose(s: HostSnapshot, features: FeatureConfig) -> StrategyKind {
    if env_dir_applicable(s.scipoptdir) {
        StrategyKind::EnvScipOptDir
    } else if env_dir_applicable(s.conda_prefix) {
        StrategyKind::EnvCondaPrefix
    } else if registry_applicable(s.registry) {
        StrategyKind::Registry
    } else if features.bundled {
        StrategyKind::PrebuiltDownload
    } else if features.from_source {
        StrategyKind::SourceCompile
    } else {
        StrategyKind::NoStrategy
    }
}

/// The strategy performs an expensive operation: a network transfer or a
/// compilation.
pub open spec fn is_expensive(k: StrategyKind) -> bool {
    k == StrategyKind::PrebuiltDownload || k == StrategyKind::SourceCompile
}

/// The chain's commitment, with everything the committed strategy needs.
#[derive(Clone, Debug, PartialEq, Eq)]
pub enum Resolution {
    /// An environment variable names a directory that passes the locator;
    /// resolve to it.
    EnvDir { source: EnvSource, root: String },
    /// The package registry supplied include paths holding both required
    /// headers.
    Registry { scip_header: String, defplugins_header: String, include_paths: Vec<String> },
    /// Download a prebuilt artifact.
    PrebuiltDownload,
    /// Compile the solver from source.
    SourceCompile,
    /// No strategy is applicable; the pipeline fails with a remediation
    /// message.
    NoStrategy,
}

/// The strategy a resolution belongs to.
pub open spec fn kind_of(r: Resolution) -> StrategyKind {
    match r {
        Resolution::EnvDir { source: EnvSource::ScipOptDir, .. } => StrategyKind::EnvScipOptDir,
        Resolution::EnvDir { source: EnvSource::CondaPrefix, .. } => StrategyKind::EnvCondaPrefix,
        Resolution::Registry { .. } => StrategyKind::Registry,
        Resolution::PrebuiltDownload => StrategyKind::PrebuiltDownload,
        Resolution::SourceCompile => StrategyKind::SourceCompile,
        Resolution::NoStrategy => StrategyKind::NoStrategy,
    }
}

fn find_scip_header(paths: &Vec<IncludeProbe>) -> (r: Option<usize>)
    ensures
        match r {
            Some(i) => first_scip_header_from(paths@, 0) == Some(i as int),
            None => first_scip_header_from(paths@, 0) is None,
        },
{
    let mut i: usize = 0;
    while i < paths.len()
        invariant
            i <= paths@.len(),
            first_scip_header_from(paths@, 0) == first_scip_header_from(paths@, i as int),
        decreases paths@.len() - i,
    {
        if paths[i].has_scip_header {
            return Some(i);
        }
        i = i + 1;
    }
    None
}

fn find_defplugins_header(paths: &Vec<IncludeProbe>) -> (r: Option<usize>)
    ensures
        match r {
            Some(i) => first_defplugins_header_from(paths@, 0) == Some(i as int),
            None => first_defplugins_header_from(paths@, 0) is None,
        },
{
    let mut i: usize = 0;
    while i < paths.len()
        invariant
            i <= paths@.len(),
            first_defplugins_header_from(paths@, 0) == first_defplugins_header_from(
                paths@,
                i as int,
            ),
        decreases paths@.len() - i,
    {
        if paths[i].has_defplugins_header {
            return Some(i);
        }
        i = i + 1;
    }
    None
}

proof fn lemma_first_scip_header_sound(paths: Seq<IncludeProbe>, i: int, p: int)
    requires
        0 <= i,
        first_scip_header_from(paths, i) == Some(p),
    ensures
        i <= p < paths.len(),
        paths[p].has_scip_header,
    decreases paths.len() + 1 - i,
{
    if i >= paths.len() {
    } else if paths[i].has_scip_header {
    } else {
        lemma_first_scip_header_sound(paths, i + 1, p);
    }
}

proof fn lemma_first_defplugins_header_sound(paths: Seq<IncludeProbe>, i: int, p: int)
    requires
        0 <= i,
        first_defplugins_header_from(paths, i) == Some(p),
    ensures
        i <= p < paths.len(),
        paths[p].has_defplugins_header,
    decreases paths.len() + 1 - i,
{
    if i >= paths.len() {
    } else if paths[i].has_defplugins_header {
    } else {
        lemma_first_defplugins_header_sound(paths, i + 1, p);
    }
}

/// Commits to the first applicable strategy. The snapshot holds only
/// cheap, side-effect-free observations, so no expensive operation has
/// begun when the chain decides; a resolution through an environment
/// directory or the registry therefore involves no network transfer at
/// all.
pub fn choose_strategy(s: &HostSnapshot, features: &FeatureConfig) -> (r: Resolution)
    ensures
        kind_of(r) == spec_choose(*s, *features),
        r matches Resolution::EnvDir { source: EnvSource::ScipOptDir, root } ==> (
        s.scipoptdir matches EnvDirProbe::Present { dir, .. } && root@ == dir@),
        r matches Resolution::EnvDir { source: EnvSource::CondaPrefix, root } ==> (
        s.conda_prefix matches EnvDirProbe::Present { dir, .. } && root@ == dir@),
        r matches Resolution::Registry { scip_header, defplugins_header, include_paths } ==> {
            &&& s.registry matches RegistryProbe::Found { include_paths: probes }
            &&& first_scip_header_from(probes@, 0) matches Some(i) && scip_header@ == probes@[i].path@
                + "/scip/scip.h"@
            &&& first_defplugins_header_from(probes@, 0) matches Some(j) && defplugins_header@
                == probes@[j].path@ + "/scip/scipdefplugins.h"@
            &&& include_paths.deep_view() == probes@.map_values(|p: IncludeProbe| p.path@)
        },
{
    match &s.scipoptdir {
        EnvDirProbe::Present { dir, has_scip_lib } => {
            if *has_scip_lib {
                return Resolution::EnvDir { source: EnvSource::ScipOptDir, root: dir.clone() };
            }
        },
        EnvDirProbe::Unset => {},
    }
    match &s.conda_prefix {
        EnvDirProbe::Present { dir, has_scip_lib } => {
            if *has_scip_lib {
                return Resolution::EnvDir { source: EnvSource::CondaPrefix, root: dir.clone() };
            }
        },
        EnvDirProbe::Unset => {},
    }
    match &s.registry {
        RegistryProbe::Found { include_paths: probes } => {
            let scip_idx = find_scip_header(probes);
            let def_idx = find_defplugins_header(probes);
            if scip_idx.is_some() && def_idx.is_some() {
                let i = scip_idx.unwrap();
                let j = def_idx.unwrap();
                proof {
                    lemma_first_scip_header_sound(probes@, 0, i as int);
                    lemma_first_defplugins_header_sound(probes@, 0, j as int);
                }
                let scip_header = probes[i].path.clone().concat("/scip/scip.h");
                let defplugins_header = probes[j].path.clone().concat("/scip/scipdefplugins.h");
                let mut include_paths: Vec<String> = Vec::new();
                let mut k: usize = 0;
                while k < probes.len()
                    invariant
                        k <= probes@.len(),
                        include_paths@.len() == k,
                        forall|j: int| 0 <= j < k ==> include_paths@[j]@ == probes@[j].path@,
                    decreases probes@.len() - k,
                {
                    include_paths.push(probes[k].path.clone());
                    k = k + 1;
                }
                proof {
                    assert(include_paths.deep_view() =~= probes@.map_values(
                        |p: IncludeProbe| p.path@,
                    ));
                }
                return Resolution::Registry { scip_header, defplugins_header, include_paths };
            }
        },
        RegistryProbe::Unavailable => {},
    }
    if features.bundled {
        return Resolution::PrebuiltDownload;
    }
    if features.from_source {
        return Resolution::SourceCompile;
    }
    Resolution::NoStrategy
}

/// The user-facing remediation message of the chain's terminal failure,
/// naming every configuration option that would resolve it.
pub fn no_strategy_message() -> (r: String)
    ensures
        r@
            == "Could not find SCIP installation.\nPlease either:\n- Set SCIPOPTDIR environment variable to point to your SCIP installation\n- Install SCIP with pkg-config support (scip.pc file)\n- Use --features bundled to download and use a bundled version\n- Use --features from-source to build SCIP from source"@,
{
    String::from_str(
        "Could not find SCIP installation.\nPlease either:\n- Set SCIPOPTDIR environment variable to point to your SCIP installation\n- Install SCIP with pkg-config support (scip.pc file)\n- Use --features bundled to download and use a bundled version\n- Use --features from-source to build SCIP from source",
    )
}

/// An environment variable naming a directory that passes the locator
/// always wins, and such a resolution involves no network transfer and no
/// compilation.
pub proof fn lemma_env_dir_with_library_wins(s: HostSnapshot, features: FeatureConfig)
    requires
        env_dir_applicable(s.scipoptdir) || env_dir_applicable(s.conda_prefix),
    ensures
        !is_expensive(spec_choose(s, features)),
        env_dir_applicable(s.scipoptdir) ==> spec_choose(s, features)
            == StrategyKind::EnvScipOptDir,
{
}

/// An environment variable naming a directory that fails the locator is
/// skipped, never committed to: the chain decides exactly as it would had
/// the variable not been set at all.
pub proof fn lemma_env_dir_without_library_skipped(s: HostSnapshot, features: FeatureConfig)
    requires
        !env_dir_applicable(s.scipoptdir),
    ensures
        spec_choose(s, features) == spec_choose(
            HostSnapshot { scipoptdir: EnvDirProbe::Unset, ..s },
            features,
        ),
{
}

/// The same, for the package-environment prefix.
pub proof fn lemma_conda_dir_without_library_skipped(s: HostSnapshot, features: FeatureConfig)
    requires
        !env_dir_applicable(s.conda_prefix),
    ensures
        spec_choose(s, features) == spec_choose(
            HostSnapshot { conda_prefix: EnvDirProbe::Unset, ..s },
            features,
        ),
{
}

/// With no environment variable applicable, no registry match and both
/// acquisition toggles off, the chain exhausts every strategy and fails.
pub proof fn lemma_exhausted_chain_fails(s: HostSnapshot, features: FeatureConfig)
    requires
        !env_dir_applicable(s.scipoptdir),
        !env_dir_applicable(s.conda_prefix),
        !registry_applicable(s.registry),
        !features.bundled,
        !features.from_source,
    ensures
        spec_choose(s, features) == StrategyKind::NoStrategy,
{
}

} // verus!
