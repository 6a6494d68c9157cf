use refinery_rs::errors::RefineryError;
use refinery_rs::models::{BinaryConfig, CiConfig, ReleaseConfig, ReleaseFeatures};
use refinery_rs::writer::WorkflowWriter;

#[test]
fn test_ci_config_generation() {
    let writer = WorkflowWriter::new(true);
    let config = CiConfig { enable_sweet: true, enable_clippy: false, enable_fmt: true };
    let planned = writer.write_ci(&config, true).ok().unwrap();
    assert_eq!(planned.path, ".github/workflows/ci.yml");
    assert!(planned.content.contains("enable-sweet: true"));
    assert!(planned.content.contains("enable-clippy: false"));
}

#[test]
fn test_release_config_matrix() {
    let writer = WorkflowWriter::new(true);
    let config = ReleaseConfig {
        binaries: vec![BinaryConfig {
            name: "test-app".to_string(),
            targets: vec!["x86_64-unknown-linux-gnu".to_string()],
            ..Default::default()
        }],
        features: ReleaseFeatures::default(),
    };
    let planned = writer.write_release(&config, false).ok().unwrap();
    assert!(planned.content.contains("bin: test-app"));
    assert!(planned.content.contains("target: x86_64-unknown-linux-gnu"));
    assert!(planned.content.contains("${{ matrix.bin }}"));
}

#[test]
fn conflicts_only_without_force() {
    let writer = WorkflowWriter::new(false);
    match writer.check_conflict("ci", true) {
        Err(RefineryError::FileExists(p)) => assert_eq!(p, ".github/workflows/ci.yml"),
        _ => panic!("expected a conflict"),
    }
    assert!(writer.check_conflict("ci", false).is_ok());
    assert!(WorkflowWriter::new(true).check_conflict("ci", true).is_ok());
}

#[test]
fn release_entries_choose_runner_and_cross() {
    let writer = WorkflowWriter::new(true);
    let config = ReleaseConfig {
        binaries: vec![BinaryConfig {
            name: "app".to_string(),
            targets: vec![
                "x86_64-pc-windows-msvc".to_string(),
                "aarch64-unknown-linux-gnu".to_string(),
            ],
            ..Default::default()
        }],
        features: ReleaseFeatures::default(),
    };
    let c = writer.write_release(&config, false).ok().unwrap().content;
    assert!(c.contains("os: windows-latest"));
    assert!(c.contains("use_cross: true"));
}
