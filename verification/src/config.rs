//! Feature toggles of the pipeline. The surrounding build environment
//! decides which acquisition strategies are enabled; the chain consults
//! these toggles through the two accessors below.

use vstd::prelude::*;

verus! {

/// Which acquisition strategies the consuming build has enabled. With both
/// toggles off, only the environment-directory and package-registry
/// strategies are tried.
#[derive(Clone, Copy, Debug, PartialEq, Eq, Structural)]
pub struct FeatureConfig {
    /// Downloading a prebuilt binary artifact is allowed.
    pub bundled: bool,
    /// Compiling the solver from source is allowed.
    pub from_source: bool,
}

/// The prebuilt-download strategy is enabled.
pub fn is_bundled_feature_enabled(features: &FeatureConfig) -> (r: bool)
    ensures
        r == features.bundled,
{
    features.bundled
}

/// The compile-from-source strategy is enabled.
pub fn is_from_source_feature_enabled(features: &FeatureConfig) -> (r: bool)
    ensures
        r == features.from_source,
{
    features.from_source
}

} // verus!
