//! The project configuration (`refinery.toml`) and its validation.
use vstd::prelude::*;

use super::artifacts::{Binary, BinaryModel, Library, LibraryModel};
use super::targets::{
    all_supported, default_linux_gnu_model, default_windows_model, triple_error, LinuxModel,
    MatrixModel, TargetMatrix, Targets, TargetsModel,
};
use super::types::{LibC, OS};
use crate::errors::RefineryError;
use super::document::{get_str, parse_document, str_at, toml_parse};
use super::metadata::package_path;
use crate::text::{concat, owned, str_eq};

verus! {

/// A Refinery project configuration.
pub struct RefineryConfig {
    pub binaries: Vec<Binary>,
    pub libraries: Vec<Library>,
    pub targets: Targets,
}

/// Abstract value of a [`RefineryConfig`].
pub struct ConfigModel {
    pub binaries: Seq<BinaryModel>,
    pub libraries: Seq<LibraryModel>,
    pub targets: TargetsModel,
}

impl View for RefineryConfig {
    type V = ConfigModel;

    open spec fn view(&self) -> ConfigModel {
        ConfigModel {
            binaries: self.binaries.deep_view(),
            libraries: self.libraries.deep_view(),
            targets: self.targets@,
        }
    }
}

/// Names of all artifacts: binaries first, then libraries.
pub open spec fn artifact_names(c: ConfigModel) -> Seq<Seq<char>> {
    c.binaries.map_values(|b: BinaryModel| b.name) + c.libraries.map_values(
        |l: LibraryModel| l.name,
    )
}

/// The name at position `i` already occurred before `i`.
pub open spec fn dup_at(names: Seq<Seq<char>>, i: int) -> bool {
    exists|j: int| 0 <= j < i && names[j] == names[i]
}

/// `i` is the first position whose name repeats an earlier one.
pub open spec fn first_dup(names: Seq<Seq<char>>, i: int) -> bool {
    &&& 0 <= i < names.len()
    &&& dup_at(names, i)
    &&& forall|k: int| 0 <= k < i ==> !dup_at(names, k)
}

/// All names are distinct.
pub open spec fn names_distinct(names: Seq<Seq<char>>) -> bool {
    forall|i: int, j: int| 0 <= j < i < names.len() ==> names[j] != names[i]
}

/// A matrix, if present, only lists supported architectures.
pub open spec fn matrix_ok(m: Option<MatrixModel>, os: OS, libc: Option<LibC>) -> bool {
    match m {
        Some(m) => all_supported(m.archs, os, libc),
        None => true,
    }
}

/// The Linux GNU matrix, if any.
pub open spec fn gnu_of(t: TargetsModel) -> Option<MatrixModel> {
    match t.linux {
        Some(l) => l.gnu,
        None => None,
    }
}

/// The Linux musl matrix, if any.
pub open spec fn musl_of(t: TargetsModel) -> Option<MatrixModel> {
    match t.linux {
        Some(l) => l.musl,
        None => None,
    }
}

/// The error of the first unsupported target matrix, checked in the order
/// Linux GNU, Linux musl, Windows, macOS.
pub open spec fn targets_error(t: TargetsModel) -> Option<Seq<char>> {
    if !matrix_ok(gnu_of(t), OS::Linux, Some(LibC::Gnu)) {
        Some(triple_error(OS::Linux))
    } else if !matrix_ok(musl_of(t), OS::Linux, Some(LibC::Musl)) {
        Some(triple_error(OS::Linux))
    } else if !matrix_ok(t.windows, OS::Windows, None) {
        Some(triple_error(OS::Windows))
    } else if !matrix_ok(t.macos, OS::Macos, None) {
        Some(triple_error(OS::Macos))
    } else {
        None
    }
}

/// The configuration is valid: at least one artifact, distinct artifact
/// names, and every target matrix resolvable to triples.
pub open spec fn config_valid(c: ConfigModel) -> bool {
    &&& !(c.binaries.len() == 0 && c.libraries.len() == 0)
    &&& names_distinct(artifact_names(c))
    &&& targets_error(c.targets) is None
}

/// The message `validate` reports for an invalid configuration.
pub open spec fn validation_message(c: ConfigModel, m: Seq<char>) -> bool {
    let names = artifact_names(c);
    if c.binaries.len() == 0 && c.libraries.len() == 0 {
        m == "At least one binary or library must be defined"@
    } else if !names_distinct(names) {
        exists|i: int| first_dup(names, i) && m == "Duplicate artifact name found: "@ + names[i]
    } else {
        targets_error(c.targets) == Some(m)
    }
}

/// A binary or library of the configuration is called `name`.
pub open spec fn name_taken(c: ConfigModel, name: Seq<char>) -> bool {
    (exists|i: int| 0 <= i < c.binaries.len() && c.binaries[i].name == name) || (exists|i: int|
        0 <= i < c.libraries.len() && c.libraries[i].name == name)
}

/// A library of the configuration is called `name`.
pub open spec fn is_library_name(c: ConfigModel, name: Seq<char>) -> bool {
    exists|i: int| 0 <= i < c.libraries.len() && c.libraries[i].name == name
}

fn check_matrix(m: &Option<TargetMatrix>, os: OS, libc: Option<LibC>) -> (r: Result<
    (),
    RefineryError,
>)
    ensures
        r is Ok <==> matrix_ok(m.deep_view(), os, libc),
        r matches Err(e) ==> e matches RefineryError::Config(msg) && msg@ == triple_error(os),
{
    match m {
        Some(mx) => match mx.get_triples(os, libc) {
            Ok(_) => Ok(()),
            Err(e) => Err(e),
        },
        None => Ok(()),
    }
}

impl RefineryConfig {
    /// The names of all artifacts, binaries first.
    pub fn artifact_names(&self) -> (r: Vec<String>)
        ensures
            r.deep_view() == artifact_names(self@),
    {
        let mut r: Vec<String> = Vec::new();
        let mut i: usize = 0;
        while i < self.binaries.len()
            invariant
                i <= self.binaries@.len(),
                r@.len() == i,
                forall|k: int| 0 <= k < i ==> r@[k]@ == self.binaries@[k]@.name,
            decreases self.binaries@.len() - i,
        {
            r.push(self.binaries[i].name.clone());
            i = i + 1;
        }
        let nb = i;
        let mut j: usize = 0;
        while j < self.libraries.len()
            invariant
                nb == self.binaries@.len(),
                j <= self.libraries@.len(),
                r@.len() == nb + j,
                forall|k: int| 0 <= k < nb ==> r@[k]@ == self.binaries@[k]@.name,
                forall|k: int| 0 <= k < j ==> r@[nb + k]@ == self.libraries@[k]@.name,
            decreases self.libraries@.len() - j,
        {
            r.push(self.libraries[j].name.clone());
            j = j + 1;
        }
        assert(r.deep_view() =~= artifact_names(self@));
        r
    }

    /// Validates the configuration.
    ///
    /// # Errors
    /// A configuration error when no artifact is defined, when two
    /// artifacts share a name (the first repeated name is reported), or when
    /// a target matrix names an unsupported architecture.
    pub fn validate(&self) -> (r: Result<(), RefineryError>)
        ensures
            r is Ok <==> config_valid(self@),
            r matches Err(e) ==> e matches RefineryError::Config(m) && validation_message(
                self@,
                m@,
            ),
    {
        if self.binaries.len() == 0 && self.libraries.len() == 0 {
            return Err(RefineryError::Config(owned("At least one binary or library must be defined")));
        }
        let names = self.artifact_names();
        let ghost ns = names.deep_view();
        let mut i: usize = 0;
        while i < names.len()
            invariant
                ns == names.deep_view(),
                ns == artifact_names(self@),
                !(self@.binaries.len() == 0 && self@.libraries.len() == 0),
                i <= ns.len(),
                forall|k: int| 0 <= k < i ==> !dup_at(ns, k),
            decreases ns.len() - i,
        {
            let mut j: usize = 0;
            while j < i
                invariant
                    ns == names.deep_view(),
                    i < ns.len(),
                    j <= i,
                    ns == artifact_names(self@),
                    !(self@.binaries.len() == 0 && self@.libraries.len() == 0),
                    forall|k: int| 0 <= k < i ==> !dup_at(ns, k),
                    forall|k: int| 0 <= k < j ==> ns[k] != ns[i as int],
                decreases i - j,
            {
                if str_eq(names[j].as_str(), names[i].as_str()) {
                    proof {
                        assert(ns[j as int] == names@[j as int]@);
                        assert(ns[i as int] == names@[i as int]@);
                        assert(dup_at(ns, i as int));
                        assert(first_dup(ns, i as int));
                        assert(!names_distinct(ns));
                    }
                    return Err(
                        RefineryError::Config(
                            concat("Duplicate artifact name found: ", names[i].as_str()),
                        ),
                    );
                }
                j = j + 1;
            }
            i = i + 1;
        }
        assert(names_distinct(ns)) by {
            assert forall|a: int, b: int| 0 <= b < a < ns.len() implies ns[b] != ns[a] by {
                assert(!dup_at(ns, a));
            }
        }
        let empty_linux: Option<TargetMatrix> = None;
        let (gnu, musl) = match &self.targets.linux {
            Some(l) => (&l.gnu, &l.musl),
            None => (&empty_linux, &empty_linux),
        };
        check_matrix(gnu, OS::Linux, Some(LibC::Gnu))?;
        check_matrix(musl, OS::Linux, Some(LibC::Musl))?;
        check_matrix(&self.targets.windows, OS::Windows, None)?;
        check_matrix(&self.targets.macos, OS::Macos, None)?;
        Ok(())
    }

    /// Whether a binary or library already uses `name`.
    pub fn is_name_taken(&self, name: &str) -> (r: bool)
        ensures
            r == name_taken(self@, name@),
    {
        let mut i: usize = 0;
        while i < self.binaries.len()
            invariant
                i <= self.binaries@.len(),
                forall|k: int| 0 <= k < i ==> self@.binaries[k].name != name@,
            decreases self.binaries@.len() - i,
        {
            if str_eq(self.binaries[i].name.as_str(), name) {
                assert(self@.binaries[i as int] == self.binaries@[i as int]@);
                return true;
            }
            i = i + 1;
        }
        self.is_library(name)
    }

    /// Whether a library uses `name`.
    pub fn is_library(&self, name: &str) -> (r: bool)
        ensures
            r == is_library_name(self@, name@),
    {
        let mut i: usize = 0;
        while i < self.libraries.len()
            invariant
                i <= self.libraries@.len(),
                forall|k: int| 0 <= k < i ==> self@.libraries[k].name != name@,
            decreases self.libraries@.len() - i,
        {
            if str_eq(self.libraries[i].name.as_str(), name) {
                assert(self@.libraries[i as int] == self.libraries@[i as int]@);
                return true;
            }
            i = i + 1;
        }
        false
    }
}

/// The project name the wizard proposes: the package name of `Cargo.toml`
/// when it can be read, else the name of the current directory, else
/// `my-project`.
pub open spec fn default_name(cargo: Option<Seq<char>>, dir: Option<Seq<char>>) -> Seq<char> {
    let from_cargo = match cargo {
        Some(t) => match toml_parse(t) {
            Some(m) => str_at(m, package_path("name"@)),
            None => None,
        },
        None => None,
    };
    match from_cargo {
        Some(n) => n,
        None => match dir {
            Some(d) => d,
            None => "my-project"@,
        },
    }
}

impl RefineryConfig {
    /// The project name the wizard proposes (see [`default_name`]), given
    /// the text of `Cargo.toml` and the name of the current directory when
    /// they could be read.
    pub fn get_default_project_name(cargo_content: Option<&str>, dir_name: Option<&str>) -> (r:
        String)
        ensures
            r@ == default_name(
                match cargo_content {
                    Some(t) => Some(t@),
                    None => None,
                },
                match dir_name {
                    Some(d) => Some(d@),
                    None => None,
                },
            ),
    {
        if let Some(text) = cargo_content {
            if let Ok(doc) = parse_document(text) {
                if let Some(name) = get_str(&doc, "package", "name") {
                    return name;
                }
            }
        }
        match dir_name {
            Some(d) => owned(d),
            None => owned("my-project"),
        }
    }
}

impl Default for RefineryConfig {
    fn default() -> (r: Self)
        ensures
            r@.binaries.len() == 1,
            r@.binaries[0].name == "my-project"@,
            r@.binaries[0].path == "src/main.rs"@,
            r@.binaries[0].out_name is None,
            r@.binaries[0].features.len() == 0,
            !r@.binaries[0].no_default_features,
            r@.libraries.len() == 0,
            r@.targets.linux == Some(
                LinuxModel { gnu: Some(default_linux_gnu_model()), musl: None },
            ),
            r@.targets.windows == Some(default_windows_model()),
            r@.targets.macos is None,
            r@ == default_config_model(),
            crate::schema::targets::targets_wf(r@.targets),
    {
        let mut binaries: Vec<Binary> = Vec::new();
        binaries.push(Binary::default());
        let r = RefineryConfig { binaries, libraries: Vec::new(), targets: Targets::default_standard() };
        assert(r@.binaries[0] == binaries@[0]@);
        assert(r@.binaries[0].features =~= Seq::<Seq<char>>::empty());
        assert(r@.binaries[0] == default_config_model().binaries[0]);
        assert(r@.binaries =~= default_config_model().binaries);
        assert(r@.libraries =~= default_config_model().libraries);
        r
    }
}


/// A configuration that validates declares at least one artifact, no two
/// artifacts share a name, and every target matrix resolves to triples.
pub proof fn law_valid_config(c: ConfigModel)
    requires
        config_valid(c),
    ensures
        artifact_names(c).len() > 0,
        forall|i: int, j: int|
            0 <= i < artifact_names(c).len() && 0 <= j < artifact_names(c).len() && i != j
                ==> artifact_names(c)[i] != artifact_names(c)[j],
        matrix_ok(gnu_of(c.targets), OS::Linux, Some(LibC::Gnu)),
        matrix_ok(musl_of(c.targets), OS::Linux, Some(LibC::Musl)),
        matrix_ok(c.targets.windows, OS::Windows, None),
        matrix_ok(c.targets.macos, OS::Macos, None),
{
    assert forall|i: int, j: int|
        0 <= i < artifact_names(c).len() && 0 <= j < artifact_names(c).len() && i != j implies
        artifact_names(c)[i] != artifact_names(c)[j] by {
        if j < i {
        } else {
            assert(artifact_names(c)[i] != artifact_names(c)[j]);
        }
    }
}

/// The configuration `refinery init` starts from, as [`RefineryConfig::default`]
/// builds it.
pub open spec fn default_config_model() -> ConfigModel {
    ConfigModel {
        binaries: seq![
            BinaryModel {
                name: "my-project"@,
                path: "src/main.rs"@,
                out_name: None,
                features: Seq::empty(),
                no_default_features: false,
            },
        ],
        libraries: Seq::empty(),
        targets: TargetsModel {
            linux: Some(LinuxModel { gnu: Some(default_linux_gnu_model()), musl: None }),
            windows: Some(default_windows_model()),
            macos: None,
        },
    }
}

/// The default configuration validates.
pub proof fn law_default_config_valid()
    ensures
        config_valid(default_config_model()),
{
    let c = default_config_model();
    assert(artifact_names(c) =~= seq!["my-project"@]);
    assert(all_supported(default_linux_gnu_model().archs, OS::Linux, Some(LibC::Gnu)));
    assert(all_supported(default_windows_model().archs, OS::Windows, None));
}

} // verus!
