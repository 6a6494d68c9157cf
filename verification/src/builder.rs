//! Local builds: which targets to build, and the commands that build and
//! package each of them. The caller runs the commands in order and stops at
//! the first failure, reporting the command's failure message.
use vstd::prelude::*;

use crate::errors::RefineryError;
use crate::schema::artifacts::{BinaryModel, Library, LibraryModel};
use crate::schema::config::{gnu_of, musl_of, targets_error, ConfigModel, RefineryConfig};
use crate::schema::targets::{triples_of, MatrixModel, TargetMatrix};
use crate::schema::types::{LibC, OS};
use crate::text::{
    cat, concat, contains, contains_seq, has_prefix, owned, push_string, replace, replace_all,
    starts_with, str_eq,
};

verus! {

/// A target triple to build, with the matrix it comes from.
pub struct TargetInfo {
    pub triple: String,
    pub os: OS,
    pub libc: Option<LibC>,
    pub matrix: TargetMatrix,
}

/// Abstract value of a [`TargetInfo`].
pub struct TargetInfoModel {
    pub triple: Seq<char>,
    pub os: OS,
    pub libc: Option<LibC>,
    pub matrix: MatrixModel,
}

impl View for TargetInfo {
    type V = TargetInfoModel;

    open spec fn view(&self) -> TargetInfoModel {
        TargetInfoModel { triple: self.triple@, os: self.os, libc: self.libc, matrix: self.matrix@ }
    }
}

impl DeepView for TargetInfo {
    type V = TargetInfoModel;

    open spec fn deep_view(&self) -> TargetInfoModel {
        self@
    }
}

/// A command to run: program, arguments, working directory, and the
/// message reported when it fails.
pub struct CommandSpec {
    pub program: String,
    pub args: Vec<String>,
    pub cwd: Option<String>,
    pub failure: String,
}

/// Abstract value of a [`CommandSpec`].
pub struct CommandModel {
    pub program: Seq<char>,
    pub args: Seq<Seq<char>>,
    pub cwd: Option<Seq<char>>,
    pub failure: Seq<char>,
}

impl View for CommandSpec {
    type V = CommandModel;

    open spec fn view(&self) -> CommandModel {
        CommandModel {
            program: self.program@,
            args: self.args.deep_view(),
            cwd: self.cwd.deep_view(),
            failure: self.failure@,
        }
    }
}

impl DeepView for CommandSpec {
    type V = CommandModel;

    open spec fn deep_view(&self) -> CommandModel {
        self@
    }
}

/// The kind of a package format.
#[derive(Clone, Copy, Debug, PartialEq, Eq, Structural)]
pub enum PackageKind {
    Deb,
    Msi,
    Rpm,
    TarGz,
    Zip,
    Unknown,
}

/// Manages local builds of a configuration.
pub struct BuildManager<'a> {
    pub config: &'a RefineryConfig,
    pub release: bool,
}

/// The targets of one optional matrix, in architecture order.
pub open spec fn infos_of(m: Option<MatrixModel>, os: OS, libc: Option<LibC>) -> Seq<
    TargetInfoModel,
> {
    match m {
        Some(m) => triples_of(m.archs, os, libc).map_values(
            |t: Seq<char>| TargetInfoModel { triple: t, os, libc, matrix: m },
        ),
        None => Seq::empty(),
    }
}

/// All targets of a configuration: Linux GNU, Linux musl, Windows, macOS.
pub open spec fn targets_of(c: ConfigModel) -> Seq<TargetInfoModel> {
    infos_of(gnu_of(c.targets), OS::Linux, Some(LibC::Gnu)) + infos_of(
        musl_of(c.targets),
        OS::Linux,
        Some(LibC::Musl),
    ) + infos_of(c.targets.windows, OS::Windows, None) + infos_of(c.targets.macos, OS::Macos, None)
}

/// A target is built with `cross`: any Linux target except native x86_64.
pub open spec fn needs_cross(triple: Seq<char>) -> bool {
    contains_seq(triple, "linux"@) && (contains_seq(triple, "musl"@) || !has_prefix(
        triple,
        "x86_64"@,
    ))
}

/// The build profile directory name.
pub open spec fn profile_of(release: bool) -> Seq<char> {
    if release {
        "release"@
    } else {
        "debug"@
    }
}

/// The command that compiles a target.
pub open spec fn build_command_model(triple: Seq<char>, release: bool) -> CommandModel {
    let base = seq!["build"@, "--target"@, triple];
    CommandModel {
        program: if needs_cross(triple) {
            "cross"@
        } else {
            "cargo"@
        },
        args: if release {
            base.push("--release"@)
        } else {
            base
        },
        cwd: None,
        failure: "Failed to build target: "@ + triple,
    }
}

/// The kind of a package format name.
pub open spec fn kind_of(format: Seq<char>) -> PackageKind {
    if format == "deb"@ {
        PackageKind::Deb
    } else if format == "msi"@ {
        PackageKind::Msi
    } else if format == "rpm"@ {
        PackageKind::Rpm
    } else if format == "tar.gz"@ {
        PackageKind::TarGz
    } else if format == "zip"@ {
        PackageKind::Zip
    } else {
        PackageKind::Unknown
    }
}

/// The `[package.metadata.<key>]` section a package format needs.
pub open spec fn metadata_key_of(format: Seq<char>) -> Option<Seq<char>> {
    if format == "deb"@ {
        Some("deb"@)
    } else if format == "rpm"@ {
        Some("generate-rpm"@)
    } else {
        None
    }
}

/// The binaries of the configuration that the matrix includes, in order.
pub open spec fn included_bins(bins: Seq<BinaryModel>, m: MatrixModel) -> Seq<Seq<char>>
    decreases bins.len(),
{
    if bins.len() == 0 {
        Seq::empty()
    } else {
        let rest = included_bins(bins.drop_last(), m);
        if m.artifacts.contains(bins.last().name) {
            rest.push(bins.last().name)
        } else {
            rest
        }
    }
}

/// The file names of the included binaries inside a zip archive.
pub open spec fn zip_names(names: Seq<Seq<char>>, triple: Seq<char>) -> Seq<Seq<char>> {
    names.map_values(
        |n: Seq<char>|
            if contains_seq(triple, "windows"@) {
                n + ".exe"@
            } else {
                n
            },
    )
}

/// The directory holding the build outputs of a target.
pub open spec fn output_dir(triple: Seq<char>, release: bool) -> Seq<char> {
    "target/"@ + triple + "/"@ + profile_of(release)
}

/// The command that creates the `.tar.gz` archive of a target.
pub open spec fn tar_command_model(c: ConfigModel, info: TargetInfoModel, release: bool) -> CommandModel {
    CommandModel {
        program: "tar"@,
        args: seq![
            "-czf"@,
            "target/"@ + info.triple + "/"@ + info.triple + ".tar.gz"@,
            "-C"@,
            output_dir(info.triple, release),
        ] + included_bins(c.binaries, info.matrix),
        cwd: None,
        failure: "Failed to create .tar.gz for "@ + info.triple,
    }
}

/// The command that creates the `.zip` archive of a target, run inside the
/// target's output directory (with `tar` on a Windows host, `zip` elsewhere).
pub open spec fn zip_command_model(
    c: ConfigModel,
    info: TargetInfoModel,
    release: bool,
    windows_host: bool,
) -> CommandModel {
    let archive = "../../"@ + info.triple + ".zip"@;
    let names = zip_names(included_bins(c.binaries, info.matrix), info.triple);
    CommandModel {
        program: if windows_host {
            "tar"@
        } else {
            "zip"@
        },
        args: if windows_host {
            seq!["-a"@, "-c"@, "-f"@, archive] + names
        } else {
            seq!["-j"@, archive] + names
        },
        cwd: Some(output_dir(info.triple, release)),
        failure: "Failed to create .zip for "@ + info.triple,
    }
}

/// The command that builds the `.deb` package of a target.
pub open spec fn deb_command_model(triple: Seq<char>) -> CommandModel {
    CommandModel {
        program: "cargo"@,
        args: seq!["deb"@, "--target"@, triple, "--no-build"@, "--no-strip"@],
        cwd: None,
        failure: "Failed to generate .deb for "@ + triple,
    }
}

/// The WiX package version of a crate version: `-rc.` becomes `-`.
pub open spec fn wix_version(version: Seq<char>) -> Option<Seq<char>> {
    if contains_seq(version, "-rc."@) {
        Some(replace_all(version, "-rc."@, "-"@))
    } else {
        None
    }
}

/// The command that builds the `.msi` installer of a target.
pub open spec fn wix_command_model(triple: Seq<char>, version: Seq<char>) -> CommandModel {
    let base = seq!["wix"@, "--target"@, triple];
    CommandModel {
        program: "cargo"@,
        args: match wix_version(version) {
            Some(v) => base + seq!["--package-version"@, v],
            None => base,
        },
        cwd: None,
        failure: "Failed to generate .msi for "@ + triple,
    }
}

/// The command that builds the `.rpm` package of a target.
pub open spec fn rpm_command_model(triple: Seq<char>) -> CommandModel {
    CommandModel {
        program: "cargo"@,
        args: seq!["generate-rpm"@, "--target"@, triple],
        cwd: None,
        failure: "Failed to generate .rpm for "@ + triple,
    }
}

fn info_list(m: &TargetMatrix, os: OS, libc: Option<LibC>, out: &mut Vec<TargetInfo>) -> (r: Result<
    (),
    RefineryError,
>)
    ensures
        r is Ok <==> targets_ok_for(m@, os, libc),
        r is Ok ==> final(out).deep_view() == old(out).deep_view() + infos_of(Some(m@), os, libc),
        r matches Err(e) ==> e matches RefineryError::Config(msg) && msg@
            == crate::schema::targets::triple_error(os),
{
    let triples = m.get_triples(os, libc)?;
    let ghost start = out.deep_view();
    let ghost ts = triples.deep_view();
    let mut i: usize = 0;
    while i < triples.len()
        invariant
            ts == triples.deep_view(),
            ts == triples_of(m@.archs, os, libc),
            i <= ts.len(),
            out.deep_view().len() == start.len() + i,
            forall|k: int| 0 <= k < start.len() ==> out.deep_view()[k] == start[k],
            forall|k: int|
                0 <= k < i ==> out.deep_view()[start.len() + k] == (TargetInfoModel {
                    triple: ts[k],
                    os,
                    libc,
                    matrix: m@,
                }),
        decreases ts.len() - i,
    {
        out.push(TargetInfo { triple: triples[i].clone(), os, libc, matrix: m.duplicate() });
        i = i + 1;
    }
    assert(out.deep_view() =~= start + infos_of(Some(m@), os, libc));
    Ok(())
}

/// All architectures of the matrix resolve to triples.
pub open spec fn targets_ok_for(m: MatrixModel, os: OS, libc: Option<LibC>) -> bool {
    crate::schema::targets::all_supported(m.archs, os, libc)
}

fn strs(parts: &[&str]) -> (r: Vec<String>)
    ensures
        r.deep_view() == parts@.map_values(|p: &str| p@),
{
    crate::text::strings_of(parts)
}


/// The `cbindgen` call that writes a library's C header (`<name>.h`), with
/// the project's `cbindgen.toml` when there is one, else for C.
pub open spec fn header_command_model(l: LibraryModel, config_exists: bool) -> CommandModel {
    CommandModel {
        program: "cbindgen"@,
        args: seq!["--output"@, l.name + ".h"@, l.path] + if config_exists {
            seq!["--config"@, "cbindgen.toml"@]
        } else {
            seq!["--lang"@, "c"@]
        },
        cwd: None,
        failure: "Failed to generate headers for "@ + l.name,
    }
}

/// The `cbindgen` calls for the libraries that want headers, in order.
pub open spec fn header_commands(libs: Seq<LibraryModel>, config_exists: bool) -> Seq<CommandModel>
    decreases libs.len(),
{
    if libs.len() == 0 {
        Seq::empty()
    } else {
        let rest = header_commands(libs.drop_last(), config_exists);
        if libs.last().headers {
            rest.push(header_command_model(libs.last(), config_exists))
        } else {
            rest
        }
    }
}

fn header_command(lib: &Library, config_exists: bool) -> (r: CommandSpec)
    ensures
        r@ == header_command_model(lib@, config_exists),
{
    let mut args = strs(&["--output"]);
    push_string(&mut args, concat(lib.name.as_str(), ".h"));
    push_string(&mut args, lib.path.clone());
    let ghost base = args.deep_view();
    assert(base =~= seq!["--output"@, lib.name@ + ".h"@, lib.path@]);
    if config_exists {
        push_string(&mut args, owned("--config"));
        push_string(&mut args, owned("cbindgen.toml"));
        assert(args.deep_view() =~= base + seq!["--config"@, "cbindgen.toml"@]);
    } else {
        push_string(&mut args, owned("--lang"));
        push_string(&mut args, owned("c"));
        assert(args.deep_view() =~= base + seq!["--lang"@, "c"@]);
    }
    CommandSpec {
        program: owned("cbindgen"),
        args,
        cwd: None,
        failure: concat("Failed to generate headers for ", lib.name.as_str()),
    }
}

impl<'a> BuildManager<'a> {
    /// A build manager for a configuration.
    pub fn new(config: &'a RefineryConfig, release: bool) -> (r: Self)
        ensures
            r.config == config,
            r.release == release,
    {
        BuildManager { config, release }
    }

    /// All targets of the configuration, in build order.
    ///
    /// # Errors
    /// The configuration error of the first matrix with an unsupported
    /// architecture.
    pub fn collect_targets_info(&self) -> (r: Result<Vec<TargetInfo>, RefineryError>)
        ensures
            r is Ok <==> targets_error(self.config@.targets) is None,
            r matches Ok(v) ==> v.deep_view() == targets_of(self.config@),
            r matches Err(e) ==> e matches RefineryError::Config(m) && targets_error(
                self.config@.targets,
            ) == Some(m@),
    {
        let ghost c = self.config@;
        let mut infos: Vec<TargetInfo> = Vec::new();
        assert(infos.deep_view() =~= Seq::<TargetInfoModel>::empty());
        if let Some(linux) = &self.config.targets.linux {
            if let Some(gnu) = &linux.gnu {
                info_list(gnu, OS::Linux, Some(LibC::Gnu), &mut infos)?;
            }
        }
        assert(infos.deep_view() =~= infos_of(gnu_of(c.targets), OS::Linux, Some(LibC::Gnu)));
        if let Some(linux) = &self.config.targets.linux {
            if let Some(musl) = &linux.musl {
                info_list(musl, OS::Linux, Some(LibC::Musl), &mut infos)?;
            }
        }
        assert(infos.deep_view() =~= infos_of(gnu_of(c.targets), OS::Linux, Some(LibC::Gnu))
            + infos_of(musl_of(c.targets), OS::Linux, Some(LibC::Musl)));
        if let Some(windows) = &self.config.targets.windows {
            info_list(windows, OS::Windows, None, &mut infos)?;
        }
        assert(infos.deep_view() =~= infos_of(gnu_of(c.targets), OS::Linux, Some(LibC::Gnu))
            + infos_of(musl_of(c.targets), OS::Linux, Some(LibC::Musl)) + infos_of(
            c.targets.windows,
            OS::Windows,
            None,
        ));
        if let Some(macos) = &self.config.targets.macos {
            info_list(macos, OS::Macos, None, &mut infos)?;
        }
        assert(infos.deep_view() =~= targets_of(c));
        Ok(infos)
    }

    /// The targets to build when building everything, in order.
    ///
    /// # Errors
    /// As [`Self::collect_targets_info`].
    pub fn build_all(&self) -> (r: Result<Vec<TargetInfo>, RefineryError>)
        ensures
            r is Ok <==> targets_error(self.config@.targets) is None,
            r matches Ok(v) ==> v.deep_view() == targets_of(self.config@),
            r matches Err(e) ==> e matches RefineryError::Config(m) && targets_error(
                self.config@.targets,
            ) == Some(m@),
    {
        self.collect_targets_info()
    }

    /// The target with the given triple.
    ///
    /// # Errors
    /// As [`Self::collect_targets_info`], or a generic error when no target
    /// of the configuration has that triple.
    pub fn build_single(&self, target_triple: &str) -> (r: Result<TargetInfo, RefineryError>)
        ensures
            targets_error(self.config@.targets) is None ==> (r is Ok <==> exists|i: int|
                0 <= i < targets_of(self.config@).len() && #[trigger] targets_of(
                    self.config@,
                )[i].triple == target_triple@),
            r matches Ok(t) ==> exists|i: int|
                0 <= i < targets_of(self.config@).len() && targets_of(self.config@)[i] == t@
                    && (forall|k: int| 0 <= k < i ==> #[trigger] targets_of(self.config@)[k].triple
                    != target_triple@) && t@.triple == target_triple@,
            r matches Err(e) ==> (targets_error(self.config@.targets) is None ==> (e matches RefineryError::Generic(m) && m@ == "Target "@
                + target_triple@ + " not found in configuration"@)),
            targets_error(self.config@.targets) is Some ==> r is Err,
    {
        let targets = self.collect_targets_info()?;
        let ghost ts = targets.deep_view();
        let mut targets = targets;
        let mut i: usize = 0;
        while i < targets.len()
            invariant
                ts == targets.deep_view(),
                ts == targets_of(self.config@),
                targets_error(self.config@.targets) is None,
                i <= ts.len(),
                forall|k: int| 0 <= k < i ==> #[trigger] ts[k].triple != target_triple@,
            decreases ts.len() - i,
        {
            if str_eq(targets[i].triple.as_str(), target_triple) {
                let t = targets.remove(i);
                assert(t@ == ts[i as int]);
                assert(ts[i as int].triple == target_triple@);
                return Ok(t);
            }
            i = i + 1;
        }
        let msg = cat(concat("Target ", target_triple), " not found in configuration");
        Err(RefineryError::Generic(msg))
    }

    /// The `cbindgen` calls that generate C headers, one per library that
    /// wants them, given whether `cbindgen.toml` exists.
    pub fn generate_headers(&self, cbindgen_config_exists: bool) -> (r: Vec<CommandSpec>)
        ensures
            r.deep_view() == header_commands(
                self.config.libraries@.map_values(|l: Library| l@),
                cbindgen_config_exists,
            ),
    {
        let ghost libs = self.config.libraries@.map_values(|l: Library| l@);
        let mut out: Vec<CommandSpec> = Vec::new();
        let mut i: usize = 0;
        while i < self.config.libraries.len()
            invariant
                i <= libs.len(),
                libs == self.config.libraries@.map_values(|l: Library| l@),
                out.deep_view() == header_commands(libs.take(i as int), cbindgen_config_exists),
            decreases libs.len() - i,
        {
            assert(libs.take(i as int + 1).drop_last() =~= libs.take(i as int));
            let lib = &self.config.libraries[i];
            if lib.headers {
                let ghost before = out.deep_view();
                out.push(header_command(lib, cbindgen_config_exists));
                assert(out.deep_view() =~= before.push(header_command_model(lib@, cbindgen_config_exists)));
            }
            i = i + 1;
        }
        assert(libs.take(libs.len() as int) =~= libs);
        out
    }

    /// The command that compiles a target.
    pub fn build_command(&self, info: &TargetInfo) -> (r: CommandSpec)
        ensures
            r@ == build_command_model(info.triple@, self.release),
    {
        let t = info.triple.as_str();
        let use_cross = contains(t, "linux") && (contains(t, "musl") || !starts_with(t, "x86_64"));
        let mut args = strs(&["build", "--target"]);
        push_string(&mut args, owned(t));
        if self.release {
            push_string(&mut args, owned("--release"));
        }
        assert(args.deep_view() =~= build_command_model(info.triple@, self.release).args);
        CommandSpec {
            program: if use_cross {
                owned("cross")
            } else {
                owned("cargo")
            },
            args,
            cwd: None,
            failure: concat("Failed to build target: ", t),
        }
    }

    /// The command that creates the `.tar.gz` archive of a target.
    pub fn tar_command(&self, info: &TargetInfo) -> (r: CommandSpec)
        ensures
            r@ == tar_command_model(self.config@, info@, self.release),
    {
        let t = info.triple.as_str();
        let archive = cat(cat(cat(concat("target/", t), "/"), t), ".tar.gz");
        let mut args = strs(&["-czf"]);
        push_string(&mut args, archive);
        push_string(&mut args, owned("-C"));
        push_string(&mut args, output_dir_exec(t, self.release));
        let ghost head = args.deep_view();
        let names = included_bin_names(self.config, &info.matrix);
        append_strings(&mut args, &names);
        assert(head =~= seq![
            "-czf"@,
            "target/"@ + info.triple@ + "/"@ + info.triple@ + ".tar.gz"@,
            "-C"@,
            output_dir(info.triple@, self.release),
        ]);
        CommandSpec {
            program: owned("tar"),
            args,
            cwd: None,
            failure: concat("Failed to create .tar.gz for ", t),
        }
    }

    /// The command that creates the `.zip` archive of a target; the caller
    /// then moves `target/<triple>.zip` into `target/<triple>/`.
    pub fn zip_command(&self, info: &TargetInfo, windows_host: bool) -> (r: CommandSpec)
        ensures
            r@ == zip_command_model(self.config@, info@, self.release, windows_host),
    {
        let t = info.triple.as_str();
        let archive = cat(concat("../../", t), ".zip");
        let mut args = if windows_host {
            strs(&["-a", "-c", "-f"])
        } else {
            strs(&["-j"])
        };
        push_string(&mut args, archive);
        let ghost head = args.deep_view();
        assert(head =~= (if windows_host {
            seq!["-a"@, "-c"@, "-f"@, "../../"@ + info.triple@ + ".zip"@]
        } else {
            seq!["-j"@, "../../"@ + info.triple@ + ".zip"@]
        }));
        let names = included_bin_names(self.config, &info.matrix);
        let windows = contains(t, "windows");
        let ghost ns = names.deep_view();
        let mut i: usize = 0;
        while i < names.len()
            invariant
                ns == names.deep_view(),
                windows == contains_seq(info.triple@, "windows"@),
                i <= ns.len(),
                args.deep_view() == head + zip_names(ns, info.triple@).subrange(0, i as int),
            decreases ns.len() - i,
        {
            let n = if windows {
                concat(names[i].as_str(), ".exe")
            } else {
                names[i].clone()
            };
            push_string(&mut args, n);
            i = i + 1;
            assert(args.deep_view() =~= head + zip_names(ns, info.triple@).subrange(0, i as int));
        }
        assert(zip_names(ns, info.triple@).subrange(0, i as int) =~= zip_names(ns, info.triple@));
        assert(args.deep_view() =~= zip_command_model(
            self.config@,
            info@,
            self.release,
            windows_host,
        ).args);
        CommandSpec {
            program: if windows_host {
                owned("tar")
            } else {
                owned("zip")
            },
            args,
            cwd: Some(output_dir_exec(t, self.release)),
            failure: concat("Failed to create .zip for ", t),
        }
    }
}

fn output_dir_exec(triple: &str, release: bool) -> (r: String)
    ensures
        r@ == output_dir(triple@, release),
{
    let d = cat(concat("target/", triple), "/");
    if release {
        cat(d, "release")
    } else {
        cat(d, "debug")
    }
}

fn append_strings(v: &mut Vec<String>, w: &Vec<String>)
    ensures
        final(v).deep_view() == old(v).deep_view() + w.deep_view(),
{
    let ghost start = v.deep_view();
    let mut i: usize = 0;
    while i < w.len()
        invariant
            i <= w@.len(),
            v.deep_view() == start + w.deep_view().subrange(0, i as int),
        decreases w@.len() - i,
    {
        push_string(v, w[i].clone());
        i = i + 1;
        assert(v.deep_view() =~= start + w.deep_view().subrange(0, i as int));
    }
    assert(w.deep_view().subrange(0, i as int) =~= w.deep_view());
}

fn contains_string(v: &Vec<String>, s: &str) -> (r: bool)
    ensures
        r == v.deep_view().contains(s@),
{
    let mut i: usize = 0;
    while i < v.len()
        invariant
            i <= v@.len(),
            forall|k: int| 0 <= k < i ==> v.deep_view()[k] != s@,
        decreases v@.len() - i,
    {
        if str_eq(v[i].as_str(), s) {
            assert(v.deep_view()[i as int] == s@);
            return true;
        }
        i = i + 1;
    }
    false
}

fn included_bin_names(config: &RefineryConfig, m: &TargetMatrix) -> (r: Vec<String>)
    ensures
        r.deep_view() == included_bins(config@.binaries, m@),
{
    let mut r: Vec<String> = Vec::new();
    let mut i: usize = 0;
    while i < config.binaries.len()
        invariant
            i <= config.binaries@.len(),
            r.deep_view() == included_bins(config@.binaries.subrange(0, i as int), m@),
        decreases config.binaries@.len() - i,
    {
        let ghost sub = config@.binaries.subrange(0, i + 1);
        assert(sub.drop_last() =~= config@.binaries.subrange(0, i as int));
        assert(sub.last() == config.binaries@[i as int]@);
        if contains_string(&m.artifacts, config.binaries[i].name.as_str()) {
            push_string(&mut r, config.binaries[i].name.clone());
        }
        i = i + 1;
    }
    assert(config@.binaries.subrange(0, i as int) =~= config@.binaries);
    r
}

/// The kind of a package format name.
pub fn package_kind(format: &str) -> (r: PackageKind)
    ensures
        r == kind_of(format@),
{
    if str_eq(format, "deb") {
        PackageKind::Deb
    } else if str_eq(format, "msi") {
        PackageKind::Msi
    } else if str_eq(format, "rpm") {
        PackageKind::Rpm
    } else if str_eq(format, "tar.gz") {
        PackageKind::TarGz
    } else if str_eq(format, "zip") {
        PackageKind::Zip
    } else {
        PackageKind::Unknown
    }
}

/// The `[package.metadata.<key>]` section that a package format requires.
pub fn packaging_metadata_key(format: &str) -> (r: Option<String>)
    ensures
        r.deep_view() == metadata_key_of(format@),
{
    if str_eq(format, "deb") {
        Some(owned("deb"))
    } else if str_eq(format, "rpm") {
        Some(owned("generate-rpm"))
    } else {
        None
    }
}

/// The error reported when a package format's metadata section is missing.
pub fn missing_metadata_error(key: &str) -> (r: RefineryError)
    ensures
        r matches RefineryError::Generic(m) && m@ == "Missing [package.metadata."@ + key@
            + "] in Cargo.toml. Run 'refinery setup' first."@,
{
    RefineryError::Generic(
        cat(concat("Missing [package.metadata.", key), "] in Cargo.toml. Run 'refinery setup' first."),
    )
}

/// The command that builds the `.deb` package of a target.
pub fn deb_command(triple: &str) -> (r: CommandSpec)
    ensures
        r@ == deb_command_model(triple@),
{
    let mut args = strs(&["deb", "--target"]);
    push_string(&mut args, owned(triple));
    push_string(&mut args, owned("--no-build"));
    push_string(&mut args, owned("--no-strip"));
    assert(args.deep_view() =~= deb_command_model(triple@).args);
    CommandSpec {
        program: owned("cargo"),
        args,
        cwd: None,
        failure: concat("Failed to generate .deb for ", triple),
    }
}

/// The command that builds the `.msi` installer of a target for a crate
/// version; WiX rejects `-rc.` pre-releases, so `1.0.0-rc.1` is passed as
/// `1.0.0-1`.
pub fn wix_command(triple: &str, version: &str) -> (r: CommandSpec)
    ensures
        r@ == wix_command_model(triple@, version@),
{
    let mut args = strs(&["wix", "--target"]);
    push_string(&mut args, owned(triple));
    let ghost base = args.deep_view();
    assert(base =~= seq!["wix"@, "--target"@, triple@]);
    if contains(version, "-rc.") {
        proof {
            reveal_strlit("-rc.");
        }
        push_string(&mut args, owned("--package-version"));
        push_string(&mut args, replace(version, "-rc.", "-"));
        assert(args.deep_view() =~= base + seq![
            "--package-version"@,
            replace_all(version@, "-rc."@, "-"@),
        ]);
    }
    CommandSpec {
        program: owned("cargo"),
        args,
        cwd: None,
        failure: concat("Failed to generate .msi for ", triple),
    }
}

/// The command that builds the `.rpm` package of a target.
pub fn rpm_command(triple: &str) -> (r: CommandSpec)
    ensures
        r@ == rpm_command_model(triple@),
{
    let mut args = strs(&["generate-rpm", "--target"]);
    push_string(&mut args, owned(triple));
    assert(args.deep_view() =~= rpm_command_model(triple@).args);
    CommandSpec {
        program: owned("cargo"),
        args,
        cwd: None,
        failure: concat("Failed to generate .rpm for ", triple),
    }
}

/// The number of architectures of an optional matrix.
pub open spec fn archs_in(m: Option<MatrixModel>) -> nat {
    match m {
        Some(x) => x.archs.len(),
        None => 0,
    }
}

/// The target of architecture `k` of an optional matrix.
pub open spec fn info_at(m: Option<MatrixModel>, os: OS, libc: Option<LibC>, k: int) -> TargetInfoModel {
    TargetInfoModel {
        triple: crate::schema::targets::triple_of(os, libc, m.unwrap().archs[k]).unwrap(),
        os,
        libc,
        matrix: m.unwrap(),
    }
}

/// Every configured matrix contributes one target per architecture, in
/// order: the Linux GNU ones, then the Linux musl ones (whether or not there
/// is a GNU matrix), then Windows, then macOS, each carrying its system, C
/// library flavour and matrix.
pub proof fn law_every_matrix_builds(c: ConfigModel)
    ensures
        targets_of(c).len() == archs_in(gnu_of(c.targets)) + archs_in(musl_of(c.targets))
            + archs_in(c.targets.windows) + archs_in(c.targets.macos),
        forall|k: int|
            0 <= k < archs_in(gnu_of(c.targets)) ==> #[trigger] targets_of(c)[k] == info_at(
                gnu_of(c.targets),
                OS::Linux,
                Some(LibC::Gnu),
                k,
            ),
        forall|k: int|
            0 <= k < archs_in(musl_of(c.targets)) ==> #[trigger] targets_of(c)[archs_in(
                gnu_of(c.targets),
            ) + k] == info_at(musl_of(c.targets), OS::Linux, Some(LibC::Musl), k),
        forall|k: int|
            0 <= k < archs_in(c.targets.windows) ==> #[trigger] targets_of(c)[archs_in(
                gnu_of(c.targets),
            ) + archs_in(musl_of(c.targets)) + k] == info_at(c.targets.windows, OS::Windows, None, k),
        forall|k: int|
            0 <= k < archs_in(c.targets.macos) ==> #[trigger] targets_of(c)[archs_in(
                gnu_of(c.targets),
            ) + archs_in(musl_of(c.targets)) + archs_in(c.targets.windows) + k] == info_at(
                c.targets.macos,
                OS::Macos,
                None,
                k,
            ),
{
    let g = infos_of(gnu_of(c.targets), OS::Linux, Some(LibC::Gnu));
    let mu = infos_of(musl_of(c.targets), OS::Linux, Some(LibC::Musl));
    let w = infos_of(c.targets.windows, OS::Windows, None);
    let ma = infos_of(c.targets.macos, OS::Macos, None);
    assert(g.len() == archs_in(gnu_of(c.targets)));
    assert(mu.len() == archs_in(musl_of(c.targets)));
    assert(w.len() == archs_in(c.targets.windows));
    assert(ma.len() == archs_in(c.targets.macos));
    let all = targets_of(c);
    assert(all =~= g + mu + w + ma);
    assert forall|k: int| 0 <= k < g.len() implies #[trigger] all[k] == info_at(
        gnu_of(c.targets),
        OS::Linux,
        Some(LibC::Gnu),
        k,
    ) by {
        assert(all[k] == g[k]);
    }
    assert forall|k: int| 0 <= k < mu.len() implies #[trigger] all[g.len() + k] == info_at(
        musl_of(c.targets),
        OS::Linux,
        Some(LibC::Musl),
        k,
    ) by {
        assert(all[g.len() + k] == mu[k]);
    }
    assert forall|k: int| 0 <= k < w.len() implies #[trigger] all[g.len() + mu.len() + k] == info_at(
        c.targets.windows,
        OS::Windows,
        None,
        k,
    ) by {
        assert(all[g.len() + mu.len() + k] == w[k]);
    }
    assert forall|k: int|
        0 <= k < ma.len() implies #[trigger] all[g.len() + mu.len() + w.len() + k] == info_at(
        c.targets.macos,
        OS::Macos,
        None,
        k,
    ) by {
        assert(all[g.len() + mu.len() + w.len() + k] == ma[k]);
    }
}

} // verus!
