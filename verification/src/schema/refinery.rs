//! The build-engine schema: artifacts with explicit (os, arch) targets, and
//! the triples those targets build for.
use vstd::prelude::*;

use crate::errors::RefineryError;
use crate::text::owned;

verus! {

/// Operating system of a build target.
#[derive(Clone, Copy, Debug, PartialEq, Eq, Structural)]
pub enum Os {
    Linux,
    Windows,
    Macos,
}

/// Architecture of a build target (`x64`, `x86`, `arm64` on the command line).
#[derive(Clone, Copy, Debug, PartialEq, Eq, Structural)]
pub enum Arch {
    X64,
    X86,
    Arm64,
}

/// A build target.
#[derive(Clone, Copy, Debug, PartialEq, Eq, Structural)]
pub struct Target {
    pub os: Os,
    pub arch: Arch,
}

/// An artifact and the targets it is built for.
pub struct Artifact {
    pub name: String,
    pub targets: Vec<Target>,
    pub features: Vec<String>,
    pub default_features: bool,
}

/// Library outputs to produce.
pub struct LibraryFormats {
    /// `.so`, `.dll`, `.dylib`
    pub dynamic: bool,
    /// `.a`, `.lib`
    pub static_lib: bool,
    pub headers: bool,
}

/// The `[build]` section.
pub struct Build {
    pub artifacts: Vec<Artifact>,
    pub library: LibraryFormats,
}

/// The build-engine configuration.
pub struct RefineryConfig {
    pub build: Build,
}

/// The triple a target builds for, `None` for x86 macOS: Linux builds link
/// musl, Windows x86 builds use the GNU toolchain and arm64 the MSVC one.
pub open spec fn triple_for(t: Target) -> Option<Seq<char>> {
    match (t.os, t.arch) {
        (Os::Linux, Arch::X64) => Some("x86_64-unknown-linux-musl"@),
        (Os::Linux, Arch::X86) => Some("i686-unknown-linux-musl"@),
        (Os::Linux, Arch::Arm64) => Some("aarch64-unknown-linux-musl"@),
        (Os::Windows, Arch::X64) => Some("x86_64-pc-windows-gnu"@),
        (Os::Windows, Arch::X86) => Some("i686-pc-windows-gnu"@),
        (Os::Windows, Arch::Arm64) => Some("aarch64-pc-windows-msvc"@),
        (Os::Macos, Arch::Arm64) => Some("aarch64-apple-darwin"@),
        (Os::Macos, Arch::X64) => Some("x86_64-apple-darwin"@),
        (Os::Macos, Arch::X86) => None,
    }
}

impl Target {
    /// The target triple of this target.
    ///
    /// # Errors
    /// macOS has no x86 target.
    pub fn to_triple(&self) -> (r: Result<String, RefineryError>)
        ensures
            match triple_for(*self) {
                Some(t) => r matches Ok(s) && s@ == t,
                None => r matches Err(RefineryError::Generic(e)) && e@
                    == "macOS doesn't support x86 architecture."@,
            },
    {
        let triple = match (self.os, self.arch) {
            (Os::Linux, Arch::X64) => "x86_64-unknown-linux-musl",
            (Os::Linux, Arch::X86) => "i686-unknown-linux-musl",
            (Os::Linux, Arch::Arm64) => "aarch64-unknown-linux-musl",
            (Os::Windows, Arch::X64) => "x86_64-pc-windows-gnu",
            (Os::Windows, Arch::X86) => "i686-pc-windows-gnu",
            (Os::Windows, Arch::Arm64) => "aarch64-pc-windows-msvc",
            (Os::Macos, Arch::Arm64) => "aarch64-apple-darwin",
            (Os::Macos, Arch::X64) => "x86_64-apple-darwin",
            (Os::Macos, Arch::X86) => {
                return Err(
                    RefineryError::Generic(owned("macOS doesn't support x86 architecture.")),
                );
            },
        };
        Ok(owned(triple))
    }
}

impl Default for LibraryFormats {
    fn default() -> (r: Self)
        ensures
            !r.dynamic && !r.static_lib && !r.headers,
    {
        LibraryFormats { dynamic: false, static_lib: false, headers: false }
    }
}

impl Default for RefineryConfig {
    /// One artifact, `my-project`, for x64 Linux and x64 Windows, with its
    /// default features and no library outputs.
    fn default() -> (r: Self)
        ensures
            r.build.artifacts@.len() == 1,
            r.build.artifacts@[0].name@ == "my-project"@,
            r.build.artifacts@[0].targets@ == seq![
                Target { os: Os::Linux, arch: Arch::X64 },
                Target { os: Os::Windows, arch: Arch::X64 },
            ],
            r.build.artifacts@[0].features@.len() == 0,
            r.build.artifacts@[0].default_features,
            !r.build.library.dynamic && !r.build.library.static_lib && !r.build.library.headers,
    {
        let mut targets: Vec<Target> = Vec::new();
        targets.push(Target { os: Os::Linux, arch: Arch::X64 });
        targets.push(Target { os: Os::Windows, arch: Arch::X64 });
        let mut artifacts: Vec<Artifact> = Vec::new();
        artifacts.push(
            Artifact {
                name: owned("my-project"),
                targets,
                features: Vec::new(),
                default_features: true,
            },
        );
        let r = RefineryConfig { build: Build { artifacts, library: LibraryFormats::default() } };
        assert(r.build.artifacts@[0].targets@ =~= seq![
            Target { os: Os::Linux, arch: Arch::X64 },
            Target { os: Os::Windows, arch: Arch::X64 },
        ]);
        r
    }
}

/// The configuration a core build runs on: the loaded one (an empty one
/// when none could be loaded), its artifacts replaced by a single
/// `artifact` for the target given on the command line when both its os
/// and arch are given.
///
/// # Errors
/// When no artifact is left to build.
pub fn core_build_config(loaded: Option<RefineryConfig>, os: Option<Os>, arch: Option<Arch>) -> (r:
    Result<RefineryConfig, RefineryError>)
    ensures
        match (os, arch) {
            (Some(o), Some(a)) => r matches Ok(c) && c.build.artifacts@.len() == 1
                && c.build.artifacts@[0].name@ == "artifact"@ && c.build.artifacts@[0].targets@
                == seq![Target { os: o, arch: a }] && c.build.artifacts@[0].features@.len() == 0
                && c.build.artifacts@[0].default_features,
            _ => match loaded {
                Some(l) => if l.build.artifacts@.len() == 0 {
                    r matches Err(RefineryError::Generic(e)) && e@
                        == "No build targets specified via CLI flags or refinery.toml"@
                } else {
                    r == Ok::<RefineryConfig, RefineryError>(l)
                },
                None => r matches Err(RefineryError::Generic(e)) && e@
                    == "No build targets specified via CLI flags or refinery.toml"@,
            },
        },
{
    let mut config = match loaded {
        Some(c) => c,
        None => RefineryConfig {
            build: Build { artifacts: Vec::new(), library: LibraryFormats::default() },
        },
    };
    if let (Some(o), Some(a)) = (os, arch) {
        let mut targets: Vec<Target> = Vec::new();
        targets.push(Target { os: o, arch: a });
        let mut artifacts: Vec<Artifact> = Vec::new();
        artifacts.push(
            Artifact {
                name: owned("artifact"),
                targets,
                features: Vec::new(),
                default_features: true,
            },
        );
        config.build.artifacts = artifacts;
        assert(config.build.artifacts@[0].targets@ =~= seq![Target { os: o, arch: a }]);
    }
    if config.build.artifacts.len() == 0 {
        return Err(
            RefineryError::Generic(
                owned("No build targets specified via CLI flags or refinery.toml"),
            ),
        );
    }
    Ok(config)
}

} // verus!
