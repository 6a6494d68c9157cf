use refinery_rs::errors::RefineryError;
use refinery_rs::schema::artifacts::{Binary, Library};
use refinery_rs::schema::config::RefineryConfig;
use refinery_rs::schema::targets::{LinuxTargets, NameOverride, TargetMatrix, Targets};
use refinery_rs::schema::types::{Arch, LibC, LibType, OS};

fn binary(name: &str) -> Binary {
    Binary {
        name: name.to_string(),
        path: "src/main.rs".to_string(),
        out_name: None,
        features: vec![],
        no_default_features: false,
    }
}

fn library(name: &str) -> Library {
    Library {
        name: name.to_string(),
        path: "src/lib.rs".to_string(),
        out_name: None,
        types: vec![LibType::Static],
        headers: false,
    }
}

#[test]
fn test_config_validation_empty() {
    let config = RefineryConfig {
        binaries: vec![],
        libraries: vec![],
        targets: Targets::default(),
    };
    assert!(config.validate().is_err());
}

#[test]
fn test_target_matrix_defaults() {
    let matrix = TargetMatrix::default();
    assert_eq!(matrix.archs, vec![Arch::X86_64]);
    assert!(matrix.artifacts.is_empty());
    assert!(matrix.pkg.is_empty());
    assert!(matrix.ext.is_none());
    assert!(!matrix.strip);
}

#[test]
fn test_resolve_name_windows_default_ext() {
    let matrix = TargetMatrix::default();
    let name = matrix.resolve_name("test", Arch::X86_64, OS::Windows, None, false);
    assert_eq!(name, "test.exe");
}

#[test]
fn test_resolve_name_linux_no_ext() {
    let matrix = TargetMatrix::default();
    let name = matrix.resolve_name("test", Arch::X86_64, OS::Linux, None, false);
    assert_eq!(name, "test");
}

#[test]
fn test_resolve_name_with_explicit_ext() {
    let matrix = TargetMatrix {
        ext: Some(".bin".to_string()),
        ..TargetMatrix::default()
    };
    let name = matrix.resolve_name("test", Arch::X86_64, OS::Windows, None, false);
    assert_eq!(name, "test.bin");
}

#[test]
fn test_resolve_name_library_no_ext() {
    let matrix = TargetMatrix::default();
    let name = matrix.resolve_name("test", Arch::X86_64, OS::Windows, None, true);
    assert_eq!(name, "test");
}

#[test]
fn test_config_optional_binaries() {
    // The configuration a `refinery.toml` with one library and a Linux GNU
    // matrix reads as.
    let config = RefineryConfig {
        binaries: vec![],
        libraries: vec![library("lib-only")],
        targets: Targets {
            linux: Some(LinuxTargets {
                gnu: Some(TargetMatrix {
                    archs: vec![Arch::X86_64],
                    artifacts: vec!["lib-only".to_string()],
                    ..TargetMatrix::default()
                }),
                musl: None,
            }),
            windows: None,
            macos: None,
        },
    };
    assert!(config.binaries.is_empty());
    assert_eq!(config.libraries.len(), 1);
    assert!(config.validate().is_ok());
}

#[test]
fn test_binary_default_path() {
    let config = RefineryConfig {
        binaries: vec![Binary { name: "test".to_string(), ..Binary::default() }],
        libraries: vec![],
        targets: Targets::default(),
    };
    assert_eq!(config.binaries[0].path, "src/main.rs");
}

#[test]
fn validate_rejects_duplicate_names() {
    let config = RefineryConfig {
        binaries: vec![binary("app")],
        libraries: vec![library("app")],
        targets: Targets::default(),
    };
    match config.validate() {
        Err(RefineryError::Config(m)) => assert_eq!(m, "Duplicate artifact name found: app"),
        _ => panic!("expected a configuration error"),
    }
}

#[test]
fn validate_message_for_no_artifacts() {
    let config = RefineryConfig { binaries: vec![], libraries: vec![], targets: Targets::default() };
    match config.validate() {
        Err(RefineryError::Config(m)) => {
            assert_eq!(m, "At least one binary or library must be defined")
        }
        _ => panic!("expected a configuration error"),
    }
}

#[test]
fn validate_rejects_i686_macos() {
    let config = RefineryConfig {
        binaries: vec![binary("app")],
        libraries: vec![],
        targets: Targets {
            linux: None,
            windows: None,
            macos: Some(TargetMatrix { archs: vec![Arch::I686], ..TargetMatrix::default() }),
        },
    };
    match config.validate() {
        Err(RefineryError::Config(m)) => {
            assert_eq!(m, "macOS does not support x32 (i686) architecture")
        }
        _ => panic!("expected a configuration error"),
    }
}

#[test]
fn get_triples_per_platform() {
    let m = TargetMatrix { archs: vec![Arch::X86_64, Arch::Aarch64], ..TargetMatrix::default() };
    assert_eq!(
        m.get_triples(OS::Linux, Some(LibC::Musl)).ok().unwrap(),
        vec!["x86_64-unknown-linux-musl", "aarch64-unknown-linux-musl"]
    );
    assert_eq!(
        m.get_triples(OS::Windows, None).ok().unwrap(),
        vec!["x86_64-pc-windows-msvc", "aarch64-pc-windows-msvc"]
    );
    assert_eq!(
        m.get_triples(OS::Macos, None).ok().unwrap(),
        vec!["x86_64-apple-darwin", "aarch64-apple-darwin"]
    );
    match m.get_triples(OS::Linux, None) {
        Err(RefineryError::Config(e)) => assert_eq!(e, "Linux target requires libc (gnu/musl)"),
        _ => panic!("expected a configuration error"),
    }
}

#[test]
fn resolve_name_uses_overrides_in_order() {
    let rule = NameOverride {
        out_name: Some("base".to_string()),
        per_arch: Some(vec![(Arch::Aarch64, "arm-name".to_string())]),
        per_pkg: Some(vec![("deb".to_string(), "deb-name".to_string())]),
    };
    let m = TargetMatrix {
        overrides: Some(vec![("app".to_string(), rule)]),
        ..TargetMatrix::default()
    };
    assert_eq!(m.resolve_name("app", Arch::Aarch64, OS::Linux, Some("deb"), false), "deb-name");
    assert_eq!(m.resolve_name("app", Arch::Aarch64, OS::Linux, Some("rpm"), false), "arm-name");
    assert_eq!(m.resolve_name("app", Arch::X86_64, OS::Linux, None, false), "base");
    assert_eq!(m.resolve_name("app", Arch::X86_64, OS::Windows, None, false), "base.exe");
    assert_eq!(m.resolve_name("other", Arch::X86_64, OS::Linux, None, false), "other");
}

#[test]
fn resolve_name_keeps_existing_extension() {
    let m = TargetMatrix::default();
    assert_eq!(m.resolve_name("tool.exe", Arch::X86_64, OS::Windows, None, false), "tool.exe");
}

#[test]
fn name_queries() {
    let config = RefineryConfig {
        binaries: vec![binary("app")],
        libraries: vec![library("core")],
        targets: Targets::default(),
    };
    assert!(config.is_name_taken("app"));
    assert!(config.is_name_taken("core"));
    assert!(!config.is_name_taken("nope"));
    assert!(config.is_library("core"));
    assert!(!config.is_library("app"));
}

#[test]
fn targets_is_empty() {
    assert!(Targets::default().is_empty());
    assert!(!Targets::default_standard().is_empty());
}
