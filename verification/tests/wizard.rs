use refinery_rs::schema::artifacts::{Binary, Library};
use refinery_rs::schema::config::RefineryConfig;
use refinery_rs::schema::targets::{NameOverride, TargetMatrix, Targets};
use refinery_rs::schema::types::{Arch, LibC, LibType, OS};
use refinery_rs::wizard::artifacts::{
    add_binary, add_library, choose_artifact_name, edit_binary, edit_library, find_binary,
    lib_type_defaults, new_binary, new_library, remove_binary, remove_library, BinaryEdit,
    LibraryEdit, NameChoice,
};
use refinery_rs::wizard::input::{optional_text, split_csv, text_or_default, trim};
use refinery_rs::wizard::overrides::{
    put_override, remove_override, set_arch_name, set_base_name, set_pkg_name, stored_overrides,
};
use refinery_rs::wizard::targets::{
    arch_defaults, artifact_defaults, artifact_options, edit_arch_options, edit_matrix,
    existing_matrix, includes_binary, libc_defaults, matrix_at, os_options, parse_os,
    parse_target_choice, pkg_options, remove_matrix, setup_arch_options, store_target_answers,
    MatrixEdit, TargetAnswer, TargetChoice,
};

fn bin(name: &str) -> Binary {
    Binary { name: name.to_string(), ..Binary::default() }
}

fn lib(name: &str) -> Library {
    Library { name: name.to_string(), types: vec![LibType::Static], ..Library::default() }
}

#[test]
fn trimming_and_lists() {
    assert_eq!(trim("  a b \t\n"), "a b");
    assert_eq!(trim("\u{3000}x\u{a0}"), "x");
    assert_eq!(split_csv(" deb, rpm ,,tar.gz ,"), vec!["deb", "rpm", "tar.gz"]);
    assert!(split_csv("   ").is_empty());
    assert_eq!(optional_text("  "), None);
    assert_eq!(optional_text(" x "), Some("x".to_string()));
    assert_eq!(text_or_default(" ", "src/main.rs"), "src/main.rs");
}

#[test]
fn naming_artifacts() {
    let config = RefineryConfig { binaries: vec![bin("app")], libraries: vec![], targets: Targets::default() };
    assert!(matches!(choose_artifact_name(&config, "!", "app"), NameChoice::Back));
    assert!(matches!(choose_artifact_name(&config, "", "app"), NameChoice::Taken(n) if n == "app"));
    assert!(matches!(choose_artifact_name(&config, "tool", "app"), NameChoice::Accepted(n) if n == "tool"));
}

#[test]
fn declaring_artifacts() {
    let b = new_binary("cli", "", true, Some("a, b"));
    assert_eq!(b.path, "src/main.rs");
    assert_eq!(b.features, vec!["a", "b"]);
    assert!(b.no_default_features);
    let l = new_library("core", "lib/core.rs", vec![LibType::Dynamic], true);
    assert_eq!(l.path, "lib/core.rs");
    assert!(l.headers);
    assert_eq!(new_library("core", "", vec![], false).path, "src/lib.rs");
}

#[test]
fn adding_in_editor() {
    let mut bins = vec![];
    assert!(!add_binary(&mut bins, "   ", "x"));
    assert!(bins.is_empty());
    assert!(add_binary(&mut bins, " cli ", " "));
    assert_eq!(bins[0].name, "cli");
    assert_eq!(bins[0].path, "src/main.rs");
    let mut libs = vec![];
    assert!(add_library(&mut libs, "core", " src/core.rs "));
    assert_eq!(libs[0].path, "src/core.rs");
    assert_eq!(libs[0].types, vec![LibType::Static]);
}

#[test]
fn editing_binaries() {
    let mut bins = vec![bin("a"), bin("b")];
    assert_eq!(find_binary(&bins, "b"), Some(1));
    assert_eq!(find_binary(&bins, "c"), None);
    assert!(edit_binary(&mut bins, 1, BinaryEdit::Name("  ".to_string())).is_ok());
    assert_eq!(bins[1].name, "b");
    assert!(edit_binary(&mut bins, 1, BinaryEdit::Name(" c ".to_string())).is_ok());
    assert_eq!(bins[1].name, "c");
    assert!(edit_binary(&mut bins, 0, BinaryEdit::OutName("out".to_string())).is_ok());
    assert_eq!(bins[0].out_name, Some("out".to_string()));
    assert!(edit_binary(&mut bins, 0, BinaryEdit::OutName(" ".to_string())).is_ok());
    assert_eq!(bins[0].out_name, None);
    assert!(edit_binary(&mut bins, 0, BinaryEdit::Features("x,y".to_string())).is_ok());
    assert_eq!(bins[0].features, vec!["x", "y"]);
    assert!(edit_binary(&mut bins, 0, BinaryEdit::ToggleDefaultFeatures).is_ok());
    assert!(bins[0].no_default_features);
    assert_eq!(bins[1].features.len(), 0);
}

#[test]
fn editing_libraries() {
    let mut libs = vec![lib("core")];
    assert!(edit_library(&mut libs, 0, LibraryEdit::Types(vec![LibType::Dynamic, LibType::Static])).is_ok());
    assert_eq!(lib_type_defaults(&libs[0].types), vec![0, 1]);
    assert!(edit_library(&mut libs, 0, LibraryEdit::ToggleHeaders).is_ok());
    assert!(libs[0].headers);
    assert!(edit_library(&mut libs, 0, LibraryEdit::Path("src/x.rs".to_string())).is_ok());
    assert_eq!(libs[0].path, "src/x.rs");
}

#[test]
fn target_menus() {
    assert_eq!(os_options(), vec!["linux", "windows", "macos", "Back"]);
    assert_eq!(parse_os("windows"), Some(OS::Windows));
    assert_eq!(parse_os("Back"), None);
    assert_eq!(setup_arch_options(OS::Macos), vec![Arch::X86_64, Arch::Aarch64]);
    assert_eq!(setup_arch_options(OS::Linux), vec![Arch::X86_64, Arch::Aarch64, Arch::I686]);
    assert_eq!(edit_arch_options(OS::Linux), vec![Arch::X86_64, Arch::I686, Arch::Aarch64]);
    assert_eq!(pkg_options(OS::Windows), vec!["msi", "zip"]);
    assert_eq!(
        arch_defaults(&vec![Arch::X86_64, Arch::Aarch64, Arch::I686], &vec![Arch::I686, Arch::X86_64]),
        vec![0, 2]
    );
    let opts = artifact_options(&[bin("a")], &[lib("l")]);
    assert_eq!(opts, vec!["a", "l"]);
    assert_eq!(artifact_defaults(None, &opts), vec![0, 1]);
    let m = TargetMatrix { artifacts: vec!["l".to_string()], ..TargetMatrix::default() };
    assert_eq!(artifact_defaults(Some(&m), &opts), vec![1]);
    assert!(includes_binary(&[bin("a")], &vec!["a".to_string()]));
    assert!(!includes_binary(&[bin("a")], &vec!["l".to_string()]));
    assert_eq!(parse_target_choice("linux-musl [X86_64]"), Some((OS::Linux, Some(LibC::Musl))));
    assert_eq!(parse_target_choice("windows [X86_64]"), Some((OS::Windows, None)));
    assert_eq!(parse_target_choice("Back"), None);
}

#[test]
fn applying_target_answers() {
    let mut targets = Targets::default();
    let choice = TargetChoice {
        archs: vec![Arch::X86_64],
        artifacts: vec!["app".to_string()],
        pkg: vec!["msi".to_string()],
        strip: true,
    };
    let bins = vec![bin("app")];
    let answer = store_target_answers(&mut targets, OS::Windows, &vec![LibC::Gnu], &choice, &bins, &[]);
    assert_eq!(answer, TargetAnswer::Stored);
    let w = targets.windows.as_ref().unwrap();
    assert_eq!(w.ext, Some(".exe".to_string()));
    assert!(w.strip);
    let answer =
        store_target_answers(&mut targets, OS::Linux, &vec![LibC::Gnu, LibC::Musl], &choice, &bins, &[]);
    assert_eq!(answer, TargetAnswer::Stored);
    let l = targets.linux.as_ref().unwrap();
    assert!(l.gnu.is_some() && l.musl.is_some());
    assert_eq!(l.gnu.as_ref().unwrap().ext, None);
    assert_eq!(libc_defaults(&targets), vec![0, 1]);
    assert!(existing_matrix(&targets, OS::Macos).is_none());
    remove_matrix(&mut targets, OS::Linux, Some(LibC::Gnu));
    assert!(targets.linux.as_ref().unwrap().gnu.is_none());
    assert!(existing_matrix(&targets, OS::Linux).is_some());
    assert!(matrix_at(&targets, OS::Linux, Some(LibC::Gnu)).is_err());
}

#[test]
fn editing_matrices() {
    let mut targets = Targets { linux: None, windows: Some(TargetMatrix::default()), macos: None };
    edit_matrix(&mut targets, OS::Windows, None, MatrixEdit::Packages("msi, zip".to_string())).ok().unwrap();
    assert_eq!(targets.windows.as_ref().unwrap().pkg, vec!["msi", "zip"]);
    edit_matrix(&mut targets, OS::Windows, None, MatrixEdit::Suffix(" .bin ".to_string())).ok().unwrap();
    assert_eq!(targets.windows.as_ref().unwrap().ext, Some(".bin".to_string()));
    edit_matrix(&mut targets, OS::Windows, None, MatrixEdit::ToggleStrip).ok().unwrap();
    assert!(targets.windows.as_ref().unwrap().strip);
    assert!(edit_matrix(&mut targets, OS::Macos, None, MatrixEdit::ToggleStrip).is_err());
}

#[test]
fn editing_overrides() {
    let mut ovs: Vec<(String, NameOverride)> = vec![];
    put_override(&mut ovs, "app", NameOverride::default());
    assert_eq!(ovs.len(), 1);
    let mut rule = NameOverride::default();
    set_base_name(&mut rule, " base ");
    assert_eq!(rule.out_name, Some("base".to_string()));
    set_arch_name(&mut rule, Arch::Aarch64, "arm");
    set_arch_name(&mut rule, Arch::Aarch64, "arm2");
    assert_eq!(rule.per_arch, Some(vec![(Arch::Aarch64, "arm2".to_string())]));
    set_arch_name(&mut rule, Arch::Aarch64, " ");
    assert!(rule.per_arch.is_none());
    set_pkg_name(&mut rule, "deb", "app-deb");
    assert_eq!(rule.per_pkg, Some(vec![("deb".to_string(), "app-deb".to_string())]));
    put_override(&mut ovs, "app", rule);
    assert_eq!(ovs.len(), 1);
    assert_eq!(ovs[0].1.out_name, Some("base".to_string()));
    remove_override(&mut ovs, "app");
    assert!(stored_overrides(ovs).is_none());
}

#[test]
fn editing_out_of_range_artifacts() {
    let mut bins = vec![bin("a"), bin("b")];
    match edit_binary(&mut bins, 2, BinaryEdit::ToggleDefaultFeatures) {
        Err(e) => assert_eq!(e.message(), "Binary index out of bounds"),
        Ok(()) => panic!("an index past the end is refused"),
    }
    assert_eq!(bins.len(), 2);
    assert!(!bins[0].no_default_features && !bins[1].no_default_features);
    assert!(remove_binary(&mut bins, 5).is_err());
    assert!(remove_binary(&mut bins, 0).is_ok());
    assert_eq!(bins.len(), 1);
    assert_eq!(bins[0].name, "b");

    let mut libs = vec![lib("core")];
    match edit_library(&mut libs, 1, LibraryEdit::ToggleHeaders) {
        Err(e) => assert_eq!(e.message(), "Library index out of bounds"),
        Ok(()) => panic!("an index past the end is refused"),
    }
    assert!(!libs[0].headers);
    assert!(remove_library(&mut libs, 1).is_err());
    assert!(remove_library(&mut libs, 0).is_ok());
    assert!(libs.is_empty());
}

#[test]
fn skipped_target_answers() {
    let bins = vec![bin("app")];
    let libs = vec![lib("core")];
    let mut targets = Targets::default();
    let empty_archs = TargetChoice { archs: vec![], artifacts: vec!["app".to_string()], pkg: vec![], strip: false };
    assert_eq!(
        store_target_answers(&mut targets, OS::Linux, &vec![LibC::Gnu], &empty_archs, &bins, &libs),
        TargetAnswer::NoArchs
    );
    let empty_artifacts = TargetChoice { archs: vec![Arch::X86_64], artifacts: vec![], pkg: vec![], strip: false };
    assert_eq!(
        store_target_answers(&mut targets, OS::Linux, &vec![LibC::Gnu], &empty_artifacts, &bins, &libs),
        TargetAnswer::NoArtifacts
    );
    let i686_mac = TargetChoice { archs: vec![Arch::I686], artifacts: vec!["app".to_string()], pkg: vec![], strip: false };
    assert_eq!(
        store_target_answers(&mut targets, OS::Macos, &vec![LibC::Gnu], &i686_mac, &bins, &libs),
        TargetAnswer::Unoffered
    );
    let unknown = TargetChoice { archs: vec![Arch::X86_64], artifacts: vec!["ghost".to_string()], pkg: vec![], strip: false };
    assert_eq!(
        store_target_answers(&mut targets, OS::Linux, &vec![LibC::Gnu], &unknown, &bins, &libs),
        TargetAnswer::Unoffered
    );
    assert!(targets.linux.is_none() && targets.macos.is_none());

    let lib_only = TargetChoice {
        archs: vec![Arch::X86_64],
        artifacts: vec!["core".to_string()],
        pkg: vec!["deb".to_string()],
        strip: true,
    };
    assert_eq!(
        store_target_answers(&mut targets, OS::Linux, &vec![LibC::Musl], &lib_only, &bins, &libs),
        TargetAnswer::Stored
    );
    let musl = targets.linux.as_ref().unwrap().musl.as_ref().unwrap();
    assert!(musl.pkg.is_empty());
    assert!(!musl.strip);
    assert_eq!(musl.artifacts, vec!["core"]);
    assert_eq!(musl.ext, None);
}

#[test]
fn one_rule_per_artifact() {
    let mut ovs: Vec<(String, NameOverride)> = vec![];
    put_override(&mut ovs, "app", NameOverride::default());
    put_override(&mut ovs, "cli", NameOverride::default());
    put_override(&mut ovs, "app", NameOverride { out_name: Some("tool".to_string()), ..NameOverride::default() });
    assert_eq!(ovs.len(), 2);
    assert_eq!(ovs.iter().filter(|(k, _)| k == "app").count(), 1);
    remove_override(&mut ovs, "cli");
    assert_eq!(ovs.len(), 1);
    assert_eq!(ovs[0].1.out_name, Some("tool".to_string()));
}

#[test]
fn overrides_are_stored_through_the_matrix_editor() {
    let mut targets = Targets { linux: None, windows: Some(TargetMatrix::default()), macos: None };
    let mut ovs: Vec<(String, NameOverride)> = vec![];
    put_override(&mut ovs, "app", NameOverride { out_name: Some("tool".to_string()), ..NameOverride::default() });
    edit_matrix(&mut targets, OS::Windows, None, MatrixEdit::Overrides(ovs)).ok().unwrap();
    let w = targets.windows.as_ref().unwrap();
    assert_eq!(w.overrides.as_ref().unwrap().len(), 1);
    assert_eq!(w.resolve_name("app", Arch::X86_64, OS::Windows, None, false), "tool.exe");
    edit_matrix(&mut targets, OS::Windows, None, MatrixEdit::Overrides(vec![])).ok().unwrap();
    assert!(targets.windows.as_ref().unwrap().overrides.is_none());
    assert!(edit_matrix(&mut targets, OS::Macos, None, MatrixEdit::Overrides(vec![])).is_err());
}
