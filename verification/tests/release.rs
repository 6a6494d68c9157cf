use refinery_rs::commands::release::{
    bump_release, delete_release, release_commands, run, try_bump_release, BumpArgs,
    ReleaseAction, ReleaseArgs, ReleaseTask,
};
use refinery_rs::errors::RefineryError;
use refinery_rs::release::{parse_rc_number, parse_u64, BumpType, ReleaseManager, VersionParts};

fn version(text: &str) -> VersionParts {
    VersionParts::parse(text).unwrap()
}

fn next(text: &str, bump: BumpType, candidate: Option<u64>) -> String {
    ReleaseManager::calculate_next_version(&version(text), bump, candidate).ok().unwrap().to_string()
}

#[test]
fn plain_bumps() {
    assert_eq!(next("1.2.3", BumpType::Major, None), "2.0.0");
    assert_eq!(next("1.2.3", BumpType::Minor, None), "1.3.0");
    assert_eq!(next("1.2.3", BumpType::Patch, None), "1.2.4");
}

#[test]
fn prerelease_is_promoted() {
    assert_eq!(next("2.0.0-rc1", BumpType::Major, None), "2.0.0");
    assert_eq!(next("1.3.0-rc1", BumpType::Minor, None), "1.3.0");
    assert_eq!(next("1.2.4-rc1", BumpType::Patch, None), "1.2.4");
    assert_eq!(next("1.2.4-rc1", BumpType::Minor, None), "1.3.0");
}

#[test]
fn candidates() {
    assert_eq!(next("1.2.3", BumpType::Minor, Some(2)), "1.3.0-rc2");
    assert_eq!(next("1.3.0-rc2", BumpType::Minor, Some(0)), "1.3.0-rc3");
    assert_eq!(next("1.2.3", BumpType::Patch, Some(0)), "1.2.4-rc1");
}

#[test]
fn rc_numbers() {
    assert_eq!(parse_rc_number("rc7"), 8);
    assert_eq!(parse_rc_number("beta"), 1);
    assert_eq!(parse_rc_number(""), 1);
    assert_eq!(parse_u64("+12"), Some(12));
    assert_eq!(parse_u64("1x"), None);
    assert_eq!(parse_u64("18446744073709551616"), None);
}

#[test]
fn version_text_roundtrip() {
    let v = version("1.2.3-alpha.1+build.5");
    assert_eq!(v.major, 1);
    assert_eq!(v.pre, "alpha.1");
    assert_eq!(v.build, "build.5");
    assert_eq!(v.to_string(), "1.2.3-alpha.1+build.5");
    assert!(VersionParts::parse("1.2").is_none());
}

const MANIFEST: &str = "[package]\nname = \"app\"\nversion = \"1.2.3\"\n";

#[test]
fn bump_version_updates_manifest() {
    let manager = ReleaseManager::new("main", false);
    let bumped = manager.bump_version(MANIFEST, BumpType::Minor, None).ok().unwrap();
    assert_eq!(bumped.version, "1.3.0");
    assert!(bumped.manifest.contains("version = \"1.3.0\""));
    assert!(bumped.manifest.contains("name = \"app\""));
}

#[test]
fn bump_version_errors() {
    let manager = ReleaseManager::new("main", false);
    match manager.bump_version("[package]\nversion = 3\n", BumpType::Patch, None) {
        Err(RefineryError::Generic(m)) => assert_eq!(m, "Missing version in Cargo.toml"),
        _ => panic!("expected an error"),
    }
    match manager.bump_version("[package]\nversion = \"one\"\n", BumpType::Patch, None) {
        Err(RefineryError::Generic(m)) => assert_eq!(m, "Failed to parse current version"),
        _ => panic!("expected an error"),
    }
    match manager.bump_version("[package", BumpType::Patch, None) {
        Err(RefineryError::Generic(m)) => assert_eq!(m, "Failed to parse Cargo.toml"),
        _ => panic!("expected an error"),
    }
}

#[test]
fn bump_reports_missing_version() {
    let manager = ReleaseManager::new("main", false);
    for text in ["[package]\nname = \"x\"\n", "", "package = 3\n", "[dependencies]\nserde = \"1\"\n"] {
        match manager.bump_version(text, BumpType::Patch, None) {
            Err(RefineryError::Generic(m)) => assert_eq!(m, "Missing version in Cargo.toml"),
            _ => panic!("expected the missing version to be reported"),
        }
        match manager.try_bump_version(text, BumpType::Patch, None) {
            Some(Err(RefineryError::Generic(m))) => assert_eq!(m, "Missing version in Cargo.toml"),
            _ => panic!("expected the missing version to be reported"),
        }
    }
    let r = manager.try_bump_version(MANIFEST, BumpType::Patch, Some(0)).unwrap().ok().unwrap();
    assert_eq!(r.version, "1.2.4-rc1");
    let full = "[package]\nname = \"x\"\nversion = \"18446744073709551615.0.0\"\n";
    assert!(manager.try_bump_version(full, BumpType::Major, None).is_none());
    assert_eq!(manager.try_bump_version(full, BumpType::Minor, None).unwrap().ok().unwrap().version, "18446744073709551615.1.0");
}

#[test]
fn cargo_check_follows_a_bump_when_asked() {
    assert_eq!(ReleaseManager::new("main", true).post_bump_commands(), vec![vec!["cargo".to_string(), "check".to_string()]]);
    assert!(ReleaseManager::new("main", false).post_bump_commands().is_empty());
}

#[test]
fn release_candidates_are_accepted() {
    assert_eq!(next("0.9.9", BumpType::Major, Some(12)), "1.0.0-rc12");
    assert_eq!(next("1.0.0-rc12", BumpType::Major, Some(0)), "1.0.0-rc13");
    assert_eq!(next("1.0.0-beta.2", BumpType::Patch, Some(0)), "1.0.0-rc1");
}

#[test]
fn cli_bump_uses_candidate_as_given() {
    let action = ReleaseAction::Patch(BumpArgs { candidate: Some(0) });
    let r = bump_release(MANIFEST, &action).ok().unwrap();
    assert_eq!(r.version, "1.2.4-rc0");
    match try_bump_release("[package]\n", &ReleaseAction::Major(BumpArgs { candidate: None })) {
        Some(Err(RefineryError::Generic(m))) => assert_eq!(m, "Missing version in Cargo.toml"),
        _ => panic!("expected the missing version to be reported"),
    }
}

#[test]
fn run_prefers_delete() {
    let args = ReleaseArgs {
        action: Some(ReleaseAction::Major(BumpArgs { candidate: None })),
        delete: Some("v1.0.0".to_string()),
    };
    assert!(matches!(run(&args), Ok(ReleaseTask::Delete(t)) if t == "v1.0.0"));
    let args = ReleaseArgs { action: Some(ReleaseAction::Minor(BumpArgs { candidate: Some(3) })), delete: None };
    assert!(matches!(run(&args), Ok(ReleaseTask::Bump(BumpType::Minor, Some(3)))));
    match run(&ReleaseArgs { action: None, delete: None }) {
        Err(RefineryError::Generic(m)) => {
            assert_eq!(m, "Specify a release action (major, minor, patch) or use --delete")
        }
        _ => panic!("expected an error"),
    }
}

#[test]
fn git_plans() {
    let plan = release_commands("1.3.0");
    let args: Vec<Vec<String>> = plan.iter().map(|c| c.args.clone()).collect();
    assert_eq!(args[0], vec!["add", "Cargo.toml"]);
    assert_eq!(args[1], vec!["commit", "-m", "chore: release 1.3.0"]);
    assert_eq!(args[2], vec!["tag", "-a", "v1.3.0", "-m", "Release 1.3.0"]);
    assert_eq!(args[3], vec!["push", "origin", "main"]);
    assert_eq!(args[4], vec!["push", "origin", "--tags"]);
    assert!(plan.iter().all(|c| c.must_succeed));

    let manager = ReleaseManager::new("trunk", true);
    let with_lock = manager.finalize_git_release("2.0.0", true);
    assert_eq!(with_lock[1].args, vec!["add", "Cargo.lock"]);
    assert_eq!(with_lock[4].args, vec!["push", "origin", "trunk"]);

    let del = delete_release("v1.0.0");
    assert_eq!(del[0].args, vec!["tag", "-d", "v1.0.0"]);
    assert!(!del[0].must_succeed);
    assert_eq!(del[1].args, vec!["push", "origin", "--delete", "v1.0.0"]);
    assert!(del[1].must_succeed);

    assert_eq!(
        ReleaseManager::gh_release("1.0.0", "notes.md"),
        vec!["release", "create", "v1.0.0", "--title", "v1.0.0", "--notes-file", "notes.md"]
    );
}

#[test]
fn parsing_follows_semver_identifier_rules() {
    let v = version("1.2.3-rc.1+build.5");
    assert_eq!((v.major, v.minor, v.patch), (1, 2, 3));
    assert_eq!(v.pre, "rc.1");
    assert_eq!(v.build, "build.5");
    assert_eq!(v.to_string(), "1.2.3-rc.1+build.5");
    assert!(VersionParts::parse("01.2.3").is_none());
    assert!(VersionParts::parse("1.2.3-01").is_none());
    assert!(VersionParts::parse("1.2.3-").is_none());
    assert!(VersionParts::parse("1.2.3+").is_none());
    assert!(VersionParts::parse("1.2.3-a..b").is_none());
    assert!(VersionParts::parse("1.2.3+001").is_some());
    assert!(VersionParts::parse("18446744073709551616.0.0").is_none());
}

#[test]
fn bumped_version_reads_back() {
    let manager = ReleaseManager::new("main", false);
    let bumped = manager.bump_version("[package]\nversion = \"0.4.1+meta\"\n", BumpType::Minor, Some(2)).ok().unwrap();
    assert_eq!(bumped.version, "0.5.0-rc2+meta");
    let back = version(&bumped.version);
    assert_eq!(back.to_string(), bumped.version);
}
