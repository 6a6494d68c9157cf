//! Data models for the standalone CI and release workflow writer.
use vstd::prelude::*;

verus! {

/// Configuration of the CI workflow.
pub struct CiConfig {
    pub enable_sweet: bool,
    pub enable_clippy: bool,
    pub enable_fmt: bool,
}

/// Configuration of one binary in the release workflow.
pub struct BinaryConfig {
    pub name: String,
    pub features: String,
    pub targets: Vec<String>,
    pub export_libs: bool,
    pub enable_packaging: bool,
}

/// Optional publishing features of the release workflow.
pub struct ReleaseFeatures {
    pub publish_docker: bool,
    pub publish_crates: bool,
}

/// Configuration of the release workflow.
pub struct ReleaseConfig {
    pub binaries: Vec<BinaryConfig>,
    pub features: ReleaseFeatures,
}

impl Default for CiConfig {
    fn default() -> (r: Self)
        ensures
            !r.enable_sweet && !r.enable_clippy && !r.enable_fmt,
    {
        CiConfig { enable_sweet: false, enable_clippy: false, enable_fmt: false }
    }
}

impl Default for BinaryConfig {
    fn default() -> (r: Self)
        ensures
            r.name@.len() == 0,
            r.features@.len() == 0,
            r.targets@.len() == 0,
            !r.export_libs,
            !r.enable_packaging,
    {
        BinaryConfig {
            name: String::new(),
            features: String::new(),
            targets: Vec::new(),
            export_libs: false,
            enable_packaging: false,
        }
    }
}

impl Default for ReleaseFeatures {
    fn default() -> (r: Self)
        ensures
            !r.publish_docker && !r.publish_crates,
    {
        ReleaseFeatures { publish_docker: false, publish_crates: false }
    }
}

impl Default for ReleaseConfig {
    fn default() -> (r: Self)
        ensures
            r.binaries@.len() == 0,
            !r.features.publish_docker && !r.features.publish_crates,
    {
        ReleaseConfig { binaries: Vec::new(), features: ReleaseFeatures::default() }
    }
}

} // verus!
