use refinery_rs::schema::artifacts::Binary;
use refinery_rs::schema::config::RefineryConfig;
use refinery_rs::schema::metadata::{
    prepare_cargo_bins, prepare_cargo_lib, update_cargo_toml_with_metadata,
};
use refinery_rs::schema::targets::{TargetMatrix, Targets};
use refinery_rs::schema::types::{Arch, LibC, OS};
use refinery_rs::wizard::artifacts::{choose_artifact_name, new_binary, NameChoice};
use refinery_rs::wizard::input::{split_csv, trim};
use refinery_rs::models::{BinaryConfig, ReleaseConfig, ReleaseFeatures};
use refinery_rs::ui::{install_start, install_step, InstallAction, InstallState};
use refinery_rs::wizard::targets::{
    matrix_at, remove_matrix, store_target_answers, TargetAnswer, TargetChoice,
};
use refinery_rs::workflow::jobs::create_matrix_job;
use refinery_rs::workflow::Workflow;
use refinery_rs::writer::WorkflowWriter;

#[test]
fn installer_metadata_twice_is_once() {
    let once = update_cargo_toml_with_metadata("[package]\nname = \"tool\"\nversion = \"1.0.0\"\n").ok().unwrap();
    let twice = update_cargo_toml_with_metadata(&once).ok().unwrap();
    assert_eq!(once, twice);
}

#[test]
fn bins_twice_is_once() {
    let bins = vec![Binary { name: "a".to_string(), ..Binary::default() }];
    let once = prepare_cargo_bins("[package]\nname = \"x\"\n", &bins).ok().unwrap();
    let twice = prepare_cargo_bins(&once, &bins).ok().unwrap();
    assert_eq!(once, twice);
}

#[test]
fn lib_twice_is_once() {
    let once = prepare_cargo_lib("[package]\nname = \"x\"\n", "x", vec!["cdylib".into()], true).ok().unwrap();
    let twice = prepare_cargo_lib(&once, "x", vec!["cdylib".into()], true).ok().unwrap();
    assert_eq!(once, twice);
    assert!(once.contains("name = \"x_lib\""));
}

#[test]
fn trimmed_answers_stay_trimmed() {
    let t = trim("  a  ");
    assert_eq!(trim(&t), t);
    for item in split_csv(" x , ,y ") {
        assert!(!item.is_empty());
        assert_eq!(trim(&item), item);
    }
}

#[test]
fn resolving_twice_adds_extension_once() {
    let m = TargetMatrix::default();
    let once = m.resolve_name("app", Arch::X86_64, OS::Windows, None, false);
    let twice = m.resolve_name(&once, Arch::X86_64, OS::Windows, None, false);
    assert_eq!(once, "app.exe");
    assert_eq!(twice, once);
}

#[test]
fn default_configuration_validates() {
    assert!(RefineryConfig::default().validate().is_ok());
}

#[test]
fn stored_matrix_is_found_then_removed() {
    let mut targets = Targets::default();
    let choice = TargetChoice {
        archs: vec![Arch::Aarch64],
        artifacts: vec!["a".to_string()],
        pkg: vec![],
        strip: false,
    };
    let bins = vec![Binary { name: "a".to_string(), ..Binary::default() }];
    let answer = store_target_answers(&mut targets, OS::Linux, &vec![LibC::Musl], &choice, &bins, &[]);
    assert_eq!(answer, TargetAnswer::Stored);
    assert_eq!(matrix_at(&targets, OS::Linux, Some(LibC::Musl)).ok().unwrap().archs, vec![Arch::Aarch64]);
    assert!(matrix_at(&targets, OS::Linux, Some(LibC::Gnu)).is_err());
    remove_matrix(&mut targets, OS::Linux, Some(LibC::Musl));
    assert!(matrix_at(&targets, OS::Linux, Some(LibC::Musl)).is_err());
}

#[test]
fn accepted_names_keep_config_valid() {
    let mut config = RefineryConfig::default();
    match choose_artifact_name(&config, "second", "my-project") {
        NameChoice::Accepted(n) => config.binaries.push(new_binary(&n, "", false, None)),
        _ => panic!("expected the name to be accepted"),
    }
    assert!(config.validate().is_ok());
    assert!(matches!(choose_artifact_name(&config, "second", "x"), NameChoice::Taken(_)));
}

#[test]
fn stored_matrices_resolve_to_triples() {
    let bins = vec![Binary { name: "app".to_string(), ..Binary::default() }];
    let mut targets = Targets::default();
    let choice = TargetChoice {
        archs: vec![Arch::X86_64, Arch::Aarch64],
        artifacts: vec!["app".to_string()],
        pkg: vec!["zip".to_string()],
        strip: false,
    };
    assert_eq!(store_target_answers(&mut targets, OS::Macos, &vec![LibC::Gnu], &choice, &bins, &[]), TargetAnswer::Stored);
    let mac = targets.macos.as_ref().unwrap();
    assert_eq!(
        mac.get_triples(OS::Macos, None).ok().unwrap(),
        vec!["x86_64-apple-darwin", "aarch64-apple-darwin"]
    );
}

#[test]
fn quality_gate_lists_selected_steps_in_order() {
    let checks = vec!["Run Tests".to_string(), "Sweet Analysis".to_string()];
    let text = Workflow::quality_gate(&checks, "-- -D warnings");
    assert!(text.contains("- name: Sweet Analysis"));
    assert!(text.contains("- name: Run Tests"));
    assert!(!text.contains("- name: Check Format"));
    assert!(!text.contains("- name: Clippy"));
    let sweet = text.find("- name: Sweet Analysis").unwrap();
    let tests = text.find("- name: Run Tests").unwrap();
    let cache = text.find("Swatinem/rust-cache@v2").unwrap();
    assert!(cache < sweet && sweet < tests);
    let reordered = vec![
        "Sweet Analysis".to_string(),
        "Run Tests".to_string(),
        "Sweet Analysis".to_string(),
    ];
    assert_eq!(Workflow::quality_gate(&reordered, "-- -D warnings"), text);
    let all = vec!["Clippy".to_string(), "Format".to_string()];
    let text = Workflow::quality_gate(&all, "--all");
    assert!(text.contains("- name: Clippy\n        run: cargo clippy --all"));
    assert!(text.contains("- name: Check Format"));
}

#[test]
fn release_workflow_has_one_entry_per_binary_and_target() {
    let config = ReleaseConfig {
        binaries: vec![
            BinaryConfig {
                name: "one".to_string(),
                features: String::new(),
                targets: vec!["x86_64-pc-windows-msvc".to_string(), "aarch64-apple-darwin".to_string()],
                export_libs: false,
                enable_packaging: false,
            },
            BinaryConfig {
                name: "two".to_string(),
                features: "cli".to_string(),
                targets: vec!["x86_64-unknown-linux-musl".to_string()],
                export_libs: true,
                enable_packaging: true,
            },
        ],
        features: ReleaseFeatures { publish_docker: false, publish_crates: true },
    };
    let text = WorkflowWriter::new(true).write_release(&config, false).ok().unwrap().content;
    assert_eq!(text.matches("          - target: ").count(), 3);
    assert!(text.contains("- target: x86_64-pc-windows-msvc\n            os: windows-latest\n            bin: one"));
    assert!(text.contains("- target: aarch64-apple-darwin\n            os: macos-latest\n            bin: one"));
    assert!(text.contains("- target: x86_64-unknown-linux-musl\n            os: ubuntu-latest\n            bin: two\n            features: \"cli\""));
    assert!(text.contains("use_cross: true"));
    assert!(text.ends_with("run: cargo publish --token ${{ secrets.CRATES_IO_TOKEN }}\n"));
    let one = text.find("bin: one").unwrap();
    let two = text.find("bin: two").unwrap();
    assert!(one < two);
}

#[test]
fn installing_a_tool_asks_only_when_it_is_missing() {
    let (state, action) = install_start("deb");
    assert_eq!(state, InstallState::CargoProbe);
    match action {
        InstallAction::Probe(c) => assert_eq!((c.program.as_str(), c.args), ("cargo", vec!["deb".to_string(), "--version".to_string()])),
        _ => panic!("expected the cargo probe"),
    }
    let (state, action) = install_step(state, true, "deb", "cargo-deb", false);
    assert_eq!(state, InstallState::Finished(true));
    assert!(matches!(action, InstallAction::Finish { installed: true, success: None, warning: None }));

    let (state, action) = install_step(InstallState::CargoProbe, false, "wix", "cargo-wix", true);
    assert_eq!(state, InstallState::PathProbe);
    match action {
        InstallAction::Probe(c) => assert_eq!((c.program.as_str(), c.args), ("which", vec!["wix.exe".to_string()])),
        _ => panic!("expected the path probe"),
    }
    let (state, action) = install_step(state, false, "wix", "cargo-wix", true);
    assert_eq!(state, InstallState::Asked);
    match action {
        InstallAction::Ask { notice, question } => {
            assert_eq!(notice, "wix is not installed.");
            assert_eq!(question, "Would you like to install cargo-wix?");
        }
        _ => panic!("expected the question"),
    }
    let (declined, action) = install_step(state, false, "wix", "cargo-wix", true);
    assert_eq!(declined, InstallState::Finished(false));
    assert!(matches!(action, InstallAction::Finish { installed: false, success: None, warning: None }));
    let (state, action) = install_step(state, true, "wix", "cargo-wix", true);
    assert_eq!(state, InstallState::Installing);
    match action {
        InstallAction::Install { command, progress } => {
            assert_eq!(command.args, vec!["install".to_string(), "cargo-wix".to_string()]);
            assert_eq!(progress, "Installing cargo-wix...");
        }
        _ => panic!("expected the installation"),
    }
    match install_step(state, true, "wix", "cargo-wix", true).1 {
        InstallAction::Finish { installed, success, .. } => {
            assert!(installed);
            assert_eq!(success, Some("cargo-wix installed successfully.".to_string()));
        }
        _ => panic!("expected the end"),
    }
    match install_step(state, false, "wix", "cargo-wix", true).1 {
        InstallAction::Finish { installed, warning, .. } => {
            assert!(!installed);
            assert_eq!(warning, Some("Failed to install cargo-wix.".to_string()));
        }
        _ => panic!("expected the end"),
    }
}

#[test]
fn build_job_has_fixed_steps_then_one_per_binary() {
    let mut config = RefineryConfig::default();
    let one = create_matrix_job(&config).ok().unwrap();
    assert_eq!(one.steps.len(), 14);
    config.binaries.push(Binary { name: "second".to_string(), ..Binary::default() });
    let two = create_matrix_job(&config).ok().unwrap();
    assert_eq!(two.steps.len(), 15);
    assert_eq!(two.steps[12].name, Some("Prepare Artifacts: my-project".to_string()));
    assert_eq!(two.steps[13].name, Some("Prepare Artifacts: second".to_string()));
    let pipeline = Workflow::primary_workflow(&config).ok().unwrap();
    assert!(pipeline.jobs.prepare.is_none());
    assert_eq!(pipeline.jobs.build.steps.len(), 15);
    assert_eq!(pipeline.jobs.release.needs, Some(vec!["build".to_string()]));
    config.libraries.push(refinery_rs::schema::artifacts::Library {
        name: "core".to_string(),
        headers: true,
        ..refinery_rs::schema::artifacts::Library::default()
    });
    let pipeline = Workflow::primary_workflow(&config).ok().unwrap();
    assert!(pipeline.jobs.prepare.is_some());
    assert_eq!(pipeline.jobs.build.needs, Some(vec!["prepare".to_string()]));
    assert_eq!(pipeline.jobs.build.steps.len(), 16);
    assert_eq!(pipeline.jobs.build.steps[1].name, Some("Download headers".to_string()));
}
