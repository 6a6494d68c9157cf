//! The command-line interface: its arguments, and the decisions each
//! command makes before the program does its input and output.
pub mod engine;
pub mod release;

use vstd::prelude::*;

use self::release::ReleaseArgs;

verus! {

/// Arguments of `refinery init`.
pub struct InitArgs {
    /// Overwrite an existing `refinery.toml`.
    pub force: bool,
}

/// Arguments of `refinery forge`.
pub struct ForgeArgs {
    /// Overwrite an existing workflow.
    pub force: bool,
}

/// Arguments of `refinery setup`.
pub struct SetupArgs {
    /// Overwrite existing installer files.
    pub force: bool,
}

/// Arguments of `refinery build`.
pub struct BuildArgs {
    /// Build only this target triple.
    pub target: Option<String>,
    /// Build in release mode.
    pub release: bool,
}

/// The subcommands.
pub enum Commands {
    /// Initialize a new refinery project
    Init(InitArgs),
    /// Build project artifacts for the specified targets
    Build(BuildArgs),
    /// Generate release workflow (release.yml)
    Forge(ForgeArgs),
    /// Setup CI/CD and installers
    Setup(SetupArgs),
    /// Manage project releases
    Release(ReleaseArgs),
}

/// The parsed command line.
pub struct Cli {
    pub command: Commands,
}

} // verus!
