//! `refinery release`: bump the version, commit, tag and push; or delete a
//! release tag.
use vstd::prelude::*;

use crate::errors::RefineryError;
use crate::release::{
    bump_text, delete_tag_plan, finalize_plan, manifest_bumped, manifest_ready, BumpType,
    BumpedManifest, GitCommand, ReleaseManager,
};
use crate::text::owned;

verus! {

/// Arguments of a version bump.
pub struct BumpArgs {
    /// Pre-release candidate number (e.g. 1 for -rc1)
    pub candidate: Option<u64>,
}

/// The version bumps.
pub enum ReleaseAction {
    /// Bump major version
    Major(BumpArgs),
    /// Bump minor version
    Minor(BumpArgs),
    /// Bump patch version
    Patch(BumpArgs),
}

/// Arguments of `refinery release`.
pub struct ReleaseArgs {
    pub action: Option<ReleaseAction>,
    /// Delete local and remote tag
    pub delete: Option<String>,
}

/// What a release command does.
pub enum ReleaseTask {
    /// Delete this tag locally and on the remote.
    Delete(String),
    /// Bump the version, with a release-candidate number if given.
    Bump(BumpType, Option<u64>),
}

/// The bump an action asks for.
pub open spec fn action_bump(a: ReleaseAction) -> BumpType {
    match a {
        ReleaseAction::Major(_) => BumpType::Major,
        ReleaseAction::Minor(_) => BumpType::Minor,
        ReleaseAction::Patch(_) => BumpType::Patch,
    }
}

/// The release-candidate number an action asks for.
pub open spec fn action_candidate(a: ReleaseAction) -> Option<u64> {
    match a {
        ReleaseAction::Major(b) => b.candidate,
        ReleaseAction::Minor(b) => b.candidate,
        ReleaseAction::Patch(b) => b.candidate,
    }
}

fn bump_of(action: &ReleaseAction) -> (r: (BumpType, Option<u64>))
    ensures
        r.0 == action_bump(*action),
        r.1 == action_candidate(*action),
{
    match action {
        ReleaseAction::Major(b) => (BumpType::Major, b.candidate),
        ReleaseAction::Minor(b) => (BumpType::Minor, b.candidate),
        ReleaseAction::Patch(b) => (BumpType::Patch, b.candidate),
    }
}

/// What the release command does: deleting a tag takes precedence over a
/// bump.
///
/// # Errors
/// When neither a tag to delete nor a bump is given.
pub fn run(args: &ReleaseArgs) -> (r: Result<ReleaseTask, RefineryError>)
    ensures
        match args.delete {
            Some(tag) => r matches Ok(ReleaseTask::Delete(t)) && t@ == tag@,
            None => match args.action {
                Some(a) => r matches Ok(ReleaseTask::Bump(b, c)) && b == action_bump(a) && c
                    == action_candidate(a),
                None => r matches Err(RefineryError::Generic(e)) && e@
                    == "Specify a release action (major, minor, patch) or use --delete"@,
            },
        },
{
    if let Some(tag) = &args.delete {
        return Ok(ReleaseTask::Delete(tag.clone()));
    }
    match &args.action {
        Some(a) => {
            let (b, c) = bump_of(a);
            Ok(ReleaseTask::Bump(b, c))
        },
        None => Err(
            RefineryError::Generic(
                owned("Specify a release action (major, minor, patch) or use --delete"),
            ),
        ),
    }
}

/// Bumps the version of a `Cargo.toml` text for a release action; the
/// candidate number is used as it is.
///
/// # Errors
/// When the text is not TOML, or the version is missing (no `package`
/// table, or no string `package.version`) or unparsable.
pub fn bump_release(content: &str, action: &ReleaseAction) -> (r: Result<BumpedManifest, RefineryError>)
    requires
        manifest_ready(content@, action_bump(*action), action_candidate(*action), false),
    ensures
        manifest_bumped(r, content@, action_bump(*action), action_candidate(*action), false),
{
    let (b, c) = bump_of(action);
    bump_text(content, b, c, false, false).unwrap()
}

/// [`bump_release`] where its precondition holds; `None` where the component
/// the bump raises is already at its maximum.
pub fn try_bump_release(content: &str, action: &ReleaseAction) -> (r: Option<
    Result<BumpedManifest, RefineryError>,
>)
    ensures
        r is Some <==> manifest_ready(
            content@,
            action_bump(*action),
            action_candidate(*action),
            false,
        ),
        r matches Some(x) ==> manifest_bumped(
            x,
            content@,
            action_bump(*action),
            action_candidate(*action),
            false,
        ),
{
    let (b, c) = bump_of(action);
    bump_text(content, b, c, false, true)
}

/// The git commands that publish a bumped version: commit `Cargo.toml`,
/// tag, and push `main` and the tags.
pub fn release_commands(version: &str) -> (r: Vec<GitCommand>)
    ensures
        r.deep_view() == finalize_plan(version@, "main"@, false),
{
    let manager = ReleaseManager::new("main", false);
    manager.finalize_git_release(version, false)
}

/// The git commands that delete a release tag locally and on the remote.
pub fn delete_release(tag: &str) -> (r: Vec<GitCommand>)
    ensures
        r.deep_view() == delete_tag_plan(tag@),
{
    ReleaseManager::delete_tag(tag)
}

} // verus!
