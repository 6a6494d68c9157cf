use refinery_rs::errors::RefineryError;
use refinery_rs::schema::artifacts::Binary;
use refinery_rs::schema::metadata::{
    inject_cargo_fields, prepare_cargo_bins, prepare_cargo_lib, update_cargo_toml_with_metadata,
};

#[test]
fn test_update_cargo_toml_with_metadata() {
    let content = r#"[package]
name = "test-project"
version = "0.1.0"
"#;
    let updated = update_cargo_toml_with_metadata(content).ok().unwrap();
    assert!(updated.contains(r"[package.metadata.deb]"));
    assert!(updated.contains(r"[package.metadata.generate-rpm]"));
}

#[test]
fn test_prepare_cargo_lib() {
    let content = r#"[package]
name = "my-project"
"#;
    let updated = prepare_cargo_lib(content, "my-project", vec!["cdylib".into()], false).ok().unwrap();
    assert!(updated.contains(r#"name = "my_project_lib""#));
}

#[test]
fn metadata_names_packages_and_adds_asset() {
    let content = "[package]\nname = \"tool\"\n";
    let updated = update_cargo_toml_with_metadata(content).ok().unwrap();
    assert!(updated.contains("name = \"tool\""));
    assert!(updated.contains("source = \"target/release/tool\""));
    assert!(updated.contains("dest = \"/usr/bin/tool\""));
    assert!(updated.contains("mode = \"755\""));
}

#[test]
fn metadata_keeps_declared_assets() {
    let content = "[package]\nname = \"tool\"\n\n[package.metadata.generate-rpm]\nassets = []\n";
    let updated = update_cargo_toml_with_metadata(content).ok().unwrap();
    assert!(!updated.contains("/usr/bin/tool"));
}

#[test]
fn metadata_refuses_non_table_package() {
    match update_cargo_toml_with_metadata("package = 3\n") {
        Err(RefineryError::Config(m)) => assert_eq!(m, "Key 'package' in Cargo.toml is not a table"),
        _ => panic!("expected a configuration error"),
    }
}

#[test]
fn metadata_refuses_non_table_metadata() {
    match update_cargo_toml_with_metadata("[package]\nname = \"x\"\nmetadata = 1\n") {
        Err(RefineryError::Config(m)) => {
            assert_eq!(m, "Sub-key metadata in Cargo.toml is not a table")
        }
        _ => panic!("expected a configuration error"),
    }
}

#[test]
fn metadata_reports_parse_errors() {
    assert!(matches!(update_cargo_toml_with_metadata("[package"), Err(RefineryError::Toml(_))));
}

#[test]
fn metadata_defaults_package_name() {
    let updated = update_cargo_toml_with_metadata("").ok().unwrap();
    assert!(updated.contains("name = \"project\""));
}

#[test]
fn inject_sets_fields() {
    let updated = inject_cargo_fields(
        "[package]\nname = \"x\"\n",
        Some(vec!["Ann".to_string(), "Bob".to_string()]),
        Some("MIT".to_string()),
        None,
        Some("https://example.org/x".to_string()),
    )
    .ok()
    .unwrap();
    assert!(updated.contains("authors = [\"Ann\", \"Bob\"]"));
    assert!(updated.contains("license = \"MIT\""));
    assert!(updated.contains("repository = \"https://example.org/x\""));
    assert!(!updated.contains("description"));
}

#[test]
fn bins_replace_existing_sections() {
    let content = "[package]\nname = \"x\"\n\n[[bin]]\nname = \"old\"\npath = \"src/old.rs\"\n";
    let bins = vec![Binary {
        name: "new".to_string(),
        path: "src/main.rs".to_string(),
        out_name: None,
        features: vec![],
        no_default_features: false,
    }];
    let updated = prepare_cargo_bins(content, &bins).ok().unwrap();
    assert!(updated.contains("[[bin]]"));
    assert!(updated.contains("name = \"new\""));
    assert!(!updated.contains("old"));
    let cleared = prepare_cargo_bins(content, &[]).ok().unwrap();
    assert!(!cleared.contains("[[bin]]"));
}

#[test]
fn lib_keeps_distinct_name_and_adds_cbindgen() {
    let content = "[package]\nname = \"app\"\n";
    let updated =
        prepare_cargo_lib(content, "my-lib", vec!["staticlib".into()], true).ok().unwrap();
    assert!(updated.contains("name = \"my_lib\""));
    assert!(updated.contains("crate-type = [\"staticlib\"]"));
    assert!(updated.contains("cbindgen = \"0.27\""));
}

#[test]
fn lib_refuses_non_table_lib() {
    match prepare_cargo_lib("lib = \"x\"\n", "a", vec![], false) {
        Err(RefineryError::Config(m)) => assert_eq!(m, "Key 'lib' in Cargo.toml is not a table"),
        _ => panic!("expected a configuration error"),
    }
}
