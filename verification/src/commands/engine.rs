//! The `core` command group, which drives the build engine.
use vstd::prelude::*;

use crate::schema::refinery::{Arch, Os};

verus! {

/// Arguments of `core build`: an optional single target.
pub struct BuildArgs {
    pub os: Option<Os>,
    pub arch: Option<Arch>,
}

/// Arguments of `core`.
pub struct CoreArgs {
    pub action: CoreAction,
}

/// The `core` subcommands.
pub enum CoreAction {
    Build(BuildArgs),
}

} // verus!
