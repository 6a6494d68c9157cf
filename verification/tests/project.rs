use refinery_rs::builder::BuildManager;
use refinery_rs::errors::RefineryError;
use refinery_rs::packaging::{
    deb_manifest, deb_needs_lib_disabled, disable_lib_section, check_missing_fields,
    is_shared_object, missing_fields, packaging_needs,
    try_read_wix_version, validate_packaging_metadata, wix_init_args,
};
use refinery_rs::project::{crate_types, setup_toolchain, sync_metadata};
use refinery_rs::schema::artifacts::{Binary, Library};
use refinery_rs::schema::config::RefineryConfig;
use refinery_rs::schema::metadata::CargoMetadata;
use refinery_rs::schema::refinery::{self as engine, core_build_config, Target};
use refinery_rs::schema::targets::{LinuxTargets, TargetMatrix, Targets};
use refinery_rs::schema::types::LibType;
use refinery_rs::setup::{
    can_configure_targets, forge_writes, init_allowed, status_notice, sweet_download,
    version_notices, Notice,
};
use refinery_rs::ui::{
    get_current_arch, get_current_os, highlight_toml_line, select_init_action,
    select_main_action, ProgressBarMock,
};

fn library(name: &str, types: Vec<LibType>, headers: bool) -> Library {
    Library { name: name.to_string(), path: "src/lib.rs".to_string(), out_name: None, types, headers }
}

#[test]
fn syncing_manifest() {
    let config = RefineryConfig {
        binaries: vec![Binary { name: "cli".to_string(), ..Binary::default() }],
        libraries: vec![library("app", vec![LibType::Dynamic, LibType::Static], true)],
        targets: Targets::default(),
    };
    let out = sync_metadata("[package]\nname = \"app\"\n", &config).ok().unwrap();
    assert!(out.contains("[[bin]]"));
    assert!(out.contains("name = \"cli\""));
    assert!(out.contains("name = \"app_lib\""));
    assert!(out.contains("crate-type = [\"cdylib\", \"staticlib\"]"));
    assert!(out.contains("cbindgen = \"0.27\""));
    assert_eq!(crate_types(&vec![LibType::Static]), vec!["staticlib"]);
}

#[test]
fn toolchain_commands() {
    let plain = setup_toolchain("x86_64-unknown-linux-gnu", false);
    assert_eq!(plain.len(), 1);
    assert_eq!(plain[0].program, "rustup");
    assert_eq!(plain[0].args, vec!["target", "add", "x86_64-unknown-linux-gnu"]);
    assert_eq!(setup_toolchain("x86_64-unknown-linux-musl", false).len(), 2);
    assert_eq!(setup_toolchain("x86_64-unknown-linux-musl", true).len(), 1);
}

#[test]
fn default_project_name() {
    assert_eq!(RefineryConfig::get_default_project_name(Some("[package]\nname = \"tool\"\n"), Some("dir")), "tool");
    assert_eq!(RefineryConfig::get_default_project_name(Some("[package"), Some("dir")), "dir");
    assert_eq!(RefineryConfig::get_default_project_name(None, None), "my-project");
}

#[test]
fn packaging_decisions() {
    let config = RefineryConfig {
        binaries: vec![Binary::default()],
        libraries: vec![],
        targets: Targets {
            linux: Some(LinuxTargets {
                gnu: None,
                musl: Some(TargetMatrix { pkg: vec!["rpm".to_string()], ..TargetMatrix::default() }),
            }),
            windows: Some(TargetMatrix { pkg: vec!["msi".to_string()], ..TargetMatrix::default() }),
            macos: None,
        },
    };
    let needs = packaging_needs(&config);
    assert!(!needs.deb && needs.rpm && needs.wix);
    let meta = CargoMetadata {
        name: "x".to_string(),
        description: String::new(),
        authors: vec!["a".to_string()],
        license: "MIT".to_string(),
        repository: "r".to_string(),
    };
    assert!(check_missing_fields(false, true, &meta));
    assert!(!check_missing_fields(false, false, &meta));
    let missing = missing_fields(&meta);
    assert!(missing.description && !missing.authors && !missing.license && !missing.repository);
    assert_eq!(wix_init_args(false, false), vec!["wix", "init"]);
    assert_eq!(wix_init_args(false, true), vec!["wix", "init", "--force"]);
}

#[test]
fn manifest_checks() {
    let moved = disable_lib_section("[package]\nname = \"x\"\n\n[lib]\nname = \"y\"\n").ok().unwrap().unwrap();
    assert!(moved.contains("[lib-disabled]"));
    assert!(!moved.contains("[lib]"));
    assert!(disable_lib_section("[package]\n").ok().unwrap().is_none());
    assert!(validate_packaging_metadata("[package.metadata.deb]\n", "deb").is_ok());
    match validate_packaging_metadata("[package]\n", "rpm") {
        Err(RefineryError::Generic(m)) => assert_eq!(
            m,
            "Missing [package.metadata.generate-rpm] in Cargo.toml. Run 'refinery setup' first."
        ),
        _ => panic!("expected an error"),
    }
    assert!(validate_packaging_metadata("[package]\n", "zip").is_ok());
    assert_eq!(try_read_wix_version("[package]\nversion = \"1.0.0\"\n").unwrap().ok().unwrap(), "1.0.0");
    assert_eq!(try_read_wix_version("[package]\nversion = 1\n").unwrap().ok().unwrap(), "0.1.0");
    assert!(try_read_wix_version("[package]\n").is_none());
}

#[test]
fn headers_commands() {
    let config = RefineryConfig {
        binaries: vec![],
        libraries: vec![library("a", vec![], true), library("b", vec![], false)],
        targets: Targets::default(),
    };
    let manager = BuildManager::new(&config, true);
    let cmds = manager.generate_headers(false);
    assert_eq!(cmds.len(), 1);
    assert_eq!(cmds[0].program, "cbindgen");
    assert_eq!(cmds[0].args, vec!["--output", "a.h", "src/lib.rs", "--lang", "c"]);
    assert_eq!(manager.generate_headers(true)[0].args[3], "--config");
}

#[test]
fn engine_targets() {
    let t = Target { os: engine::Os::Windows, arch: engine::Arch::Arm64 };
    assert_eq!(t.to_triple().ok().unwrap(), "aarch64-pc-windows-msvc");
    let bad = Target { os: engine::Os::Macos, arch: engine::Arch::X86 };
    match bad.to_triple() {
        Err(RefineryError::Generic(m)) => assert_eq!(m, "macOS doesn't support x86 architecture."),
        _ => panic!("expected an error"),
    }
    let default = engine::RefineryConfig::default();
    assert_eq!(default.build.artifacts[0].name, "my-project");
    let c = core_build_config(None, Some(engine::Os::Linux), Some(engine::Arch::X64)).ok().unwrap();
    assert_eq!(c.build.artifacts[0].name, "artifact");
    match core_build_config(None, None, Some(engine::Arch::X64)) {
        Err(RefineryError::Generic(m)) => {
            assert_eq!(m, "No build targets specified via CLI flags or refinery.toml")
        }
        _ => panic!("expected an error"),
    }
}

#[test]
fn setup_decisions() {
    assert!(init_allowed(false, false).is_ok());
    assert!(init_allowed(true, true).is_ok());
    assert!(init_allowed(true, false).is_err());
    assert!(!forge_writes(true, false));
    assert!(forge_writes(true, true));
    let d = sweet_download("windows", "x86_64");
    assert_eq!(d.url, "https://github.com/SirCesarium/sweet/releases/download/v0.1.0/sweet-windows-x86_64.exe");
    assert_eq!(d.bin_path, "sweet.exe");
    assert_eq!(sweet_download("linux", "aarch64").bin_path, "sweet");
    let empty = RefineryConfig { binaries: vec![], libraries: vec![], targets: Targets::default() };
    assert!(!can_configure_targets(&empty));
    assert!(matches!(&version_notices("1.0.0", "1.0.0")[0], Notice::Success(m) if m == "You are on the latest version (v1.0.0)"));
    assert_eq!(version_notices("1.1.0", "1.0.0").len(), 3);
    assert!(matches!(status_notice(true, "404"), Notice::Warn(m) if m == "Crate 'refinery-rs' not found on crates.io yet."));
}

#[test]
fn terminal_text() {
    assert_eq!(highlight_toml_line("[package]"), "\x1b[38;5;208m[package]\x1b[0m");
    assert_eq!(highlight_toml_line("name = \"x=y\""), "\x1b[36mname \x1b[0m=\x1b[32m \"x=y\"\x1b[0m");
    assert_eq!(highlight_toml_line("plain"), "plain");
    assert_eq!(select_main_action(4), Some("Exit".to_string()));
    assert_eq!(select_main_action(5), None);
    assert_eq!(select_init_action(0), Some("Add Binaries".to_string()));
    assert_eq!(get_current_os("macos"), "macos");
    assert_eq!(get_current_os("freebsd"), "unknown");
    assert_eq!(get_current_arch("aarch64"), "aarch64");
    assert_eq!(get_current_arch("riscv64"), "unknown");
    let bar = ProgressBarMock;
    bar.inc(1);
    bar.finish_with_message("done");
    bar.finish_and_clear();
}

#[test]
fn shared_object_names() {
    assert!(is_shared_object("libtool.so"));
    assert!(is_shared_object("a.SO"));
    assert!(is_shared_object("x.So"));
    assert!(!is_shared_object(".so"));
    assert!(!is_shared_object("libtool.so.1"));
    assert!(!is_shared_object("libtool.a"));
    assert!(!is_shared_object("so"));
}

#[test]
fn deb_manifest_sets_lib_aside_for_musl_without_shared_object() {
    let text = "[package]\nname = \"x\"\n\n[lib]\nname = \"y\"\n";
    assert!(deb_needs_lib_disabled("x86_64-unknown-linux-musl", false));
    assert!(!deb_needs_lib_disabled("x86_64-unknown-linux-musl", true));
    assert!(!deb_needs_lib_disabled("x86_64-unknown-linux-gnu", false));
    let edited = deb_manifest(text, "x86_64-unknown-linux-musl", false).ok().unwrap().unwrap();
    assert!(edited.contains("[lib-disabled]"));
    assert!(!edited.contains("[lib]"));
    assert!(deb_manifest(text, "x86_64-unknown-linux-musl", true).ok().unwrap().is_none());
    assert!(deb_manifest(text, "x86_64-unknown-linux-gnu", false).ok().unwrap().is_none());
    assert!(deb_manifest("[package]\n", "aarch64-unknown-linux-musl", false).ok().unwrap().is_none());
    assert!(matches!(deb_manifest("[lib", "x86_64-unknown-linux-musl", false), Err(RefineryError::Toml(_))));
    assert!(deb_manifest("[lib", "x86_64-unknown-linux-gnu", false).ok().unwrap().is_none());
}

#[test]
fn disabling_lib_without_lib_section_changes_nothing() {
    assert!(disable_lib_section("").ok().unwrap().is_none());
    assert!(disable_lib_section("[package]\nname = \"x\"\n[dependencies]\n").ok().unwrap().is_none());
    assert!(matches!(disable_lib_section("[package"), Err(RefineryError::Toml(_))));
}
