//! Generation of the standalone CI and release workflow files.
//!
//! The writer decides the path, the content and whether an existing file may
//! be replaced; the caller performs the file system operations.
use vstd::prelude::*;

use crate::errors::RefineryError;
use crate::models::{BinaryConfig, CiConfig, ReleaseConfig};
use crate::text::{
    cat, concat, contains, contains_seq, has_suffix, join, join_with, lemma_contains_trans,
    lemma_contains_within, lemma_join_contains, occurs_at, owned, str_eq,
};
use crate::workflow::jobs::bool_text;

verus! {

pub const CI_HEAD: &'static str = "name: CI Validation\n\non:\n  push:\n    branches: [ main, master ]\n  pull_request:\n    branches: [ main, master ]\n\njobs:\n  validate:\n    runs-on: ubuntu-latest\n    steps:\n      - uses: actions/checkout@v6.0.2\n      - name: Refinery CI\n        uses: sircesarium/refinery-rs/ci@main\n        with:\n          enable-sweet: ";

pub const RELEASE_HEAD: &'static str = "name: Release & Export\n\non:\n  push:\n    tags:\n      - 'v*'\n\njobs:\n  build:\n    name: Build (${{ matrix.bin }} - ${{ matrix.target }})\n    runs-on: ${{ matrix.os }}\n    strategy:\n      fail-fast: false\n      matrix:\n        include:\n";

pub const RELEASE_TAIL: &'static str = "\n    steps:\n      - uses: actions/checkout@v6.0.2\n      - name: Refinery Build\n        uses: sircesarium/refinery-rs@main\n        with:\n          target: ${{ matrix.target }}\n          binary-name: ${{ matrix.bin }}\n          features: ${{ matrix.features }}\n          export-libs: ${{ matrix.export_libs }}\n          package: ${{ matrix.package }}\n          publish-docker: ${{ matrix.docker }}\n          use-cross: ${{ matrix.use_cross }}\n          github-token: ${{ secrets.GITHUB_TOKEN }}\n";

pub const PUBLISH_CRATES_JOB: &'static str = "\n  publish-crates:\n    name: Publish to Crates.io\n    runs-on: ubuntu-latest\n    needs: build\n    steps:\n      - uses: actions/checkout@v6.0.2\n      - name: Publish\n        run: cargo publish --token ${{ secrets.CRATES_IO_TOKEN }}\n";

/// A file the writer wants written: where, and what.
pub struct PlannedWrite {
    pub path: String,
    pub content: String,
}

/// Writes workflow files into `.github/workflows`.
pub struct WorkflowWriter {
    pub output_dir: String,
    pub force: bool,
}

/// The CI workflow document for a configuration.
pub open spec fn ci_text(c: CiConfig) -> Seq<char> {
    CI_HEAD@ + bool_text(c.enable_sweet) + "\n          enable-clippy: "@ + bool_text(
        c.enable_clippy,
    ) + "\n          enable-fmt: "@ + bool_text(c.enable_fmt) + "\n"@
}

/// The runner image of a target triple.
pub open spec fn release_runner(t: Seq<char>) -> Seq<char> {
    if contains_seq(t, "windows"@) {
        "windows-latest"@
    } else if contains_seq(t, "apple"@) {
        "macos-latest"@
    } else {
        "ubuntu-latest"@
    }
}

/// A Docker image is published for the `swt` binary on x86_64 Linux only.
pub open spec fn release_docker(docker: bool, t: Seq<char>, bin: Seq<char>) -> bool {
    docker && contains_seq(t, "linux"@) && contains_seq(t, "x86_64"@) && bin == "swt"@
}

/// A target needs `cross`: musl, i686, or aarch64 Linux GNU.
pub open spec fn release_cross(t: Seq<char>) -> bool {
    contains_seq(t, "musl"@) || contains_seq(t, "i686"@) || contains_seq(
        t,
        "aarch64-unknown-linux-gnu"@,
    )
}

/// The matrix entry of one binary on one target.
pub open spec fn release_entry(
    docker: bool,
    t: Seq<char>,
    name: Seq<char>,
    features: Seq<char>,
    export_libs: bool,
    package: bool,
) -> Seq<char> {
    "          - target: "@ + t + "\n            os: "@ + release_runner(t) + "\n            bin: "@
        + name + "\n            features: \""@ + features + "\"\n            export_libs: "@
        + bool_text(export_libs) + "\n            package: "@ + bool_text(package)
        + "\n            docker: "@ + bool_text(release_docker(docker, t, name))
        + "\n            use_cross: "@ + bool_text(release_cross(t))
}

/// The matrix entries of one binary, one per target.
pub open spec fn binary_entries(docker: bool, b: BinaryConfig) -> Seq<Seq<char>> {
    b.targets@.map_values(
        |t: String|
            release_entry(docker, t@, b.name@, b.features@, b.export_libs, b.enable_packaging),
    )
}

/// All matrix entries, binary by binary.
pub open spec fn release_entries(docker: bool, bins: Seq<BinaryConfig>) -> Seq<Seq<char>>
    decreases bins.len(),
{
    if bins.len() == 0 {
        Seq::empty()
    } else {
        release_entries(docker, bins.drop_last()) + binary_entries(docker, bins.last())
    }
}

/// The release workflow document for a configuration.
pub open spec fn release_text(c: ReleaseConfig) -> Seq<char> {
    let body = RELEASE_HEAD@ + join_with(
        release_entries(c.features.publish_docker, c.binaries@),
        "\n"@,
    ) + RELEASE_TAIL@;
    if c.features.publish_crates {
        body + PUBLISH_CRATES_JOB@
    } else {
        body
    }
}

/// The path of workflow file `name` in directory `dir`.
pub open spec fn workflow_path(dir: Seq<char>, name: Seq<char>) -> Seq<char> {
    dir + "/"@ + name + ".yml"@
}

fn bool_string(b: bool) -> (r: String)
    ensures
        r@ == bool_text(b),
{
    if b {
        owned("true")
    } else {
        owned("false")
    }
}

fn release_entry_exec(docker: bool, t: &str, bin: &BinaryConfig) -> (r: String)
    ensures
        r@ == release_entry(
            docker,
            t@,
            bin.name@,
            bin.features@,
            bin.export_libs,
            bin.enable_packaging,
        ),
{
    let os = if contains(t, "windows") {
        owned("windows-latest")
    } else if contains(t, "apple") {
        owned("macos-latest")
    } else {
        owned("ubuntu-latest")
    };
    let can_docker = docker && contains(t, "linux") && contains(t, "x86_64") && str_eq(
        bin.name.as_str(),
        "swt",
    );
    let use_cross = contains(t, "musl") || contains(t, "i686") || contains(
        t,
        "aarch64-unknown-linux-gnu",
    );
    let mut s = concat("          - target: ", t);
    s = cat(s, "\n            os: ");
    s = cat(s, os.as_str());
    s = cat(s, "\n            bin: ");
    s = cat(s, bin.name.as_str());
    s = cat(s, "\n            features: \"");
    s = cat(s, bin.features.as_str());
    s = cat(s, "\"\n            export_libs: ");
    s = cat(s, bool_string(bin.export_libs).as_str());
    s = cat(s, "\n            package: ");
    s = cat(s, bool_string(bin.enable_packaging).as_str());
    s = cat(s, "\n            docker: ");
    s = cat(s, bool_string(can_docker).as_str());
    s = cat(s, "\n            use_cross: ");
    s = cat(s, bool_string(use_cross).as_str());
    s
}

impl WorkflowWriter {
    /// A writer for `.github/workflows`.
    pub fn new(force: bool) -> (r: Self)
        ensures
            r.output_dir@ == ".github/workflows"@,
            r.force == force,
    {
        WorkflowWriter { output_dir: owned(".github/workflows"), force }
    }

    /// The path of workflow file `name`.
    pub fn path_of(&self, name: &str) -> (r: String)
        ensures
            r@ == workflow_path(self.output_dir@, name@),
    {
        cat(cat(cat(owned(self.output_dir.as_str()), "/"), name), ".yml")
    }

    /// Whether workflow `name` may be written, given whether its file
    /// already exists: always when forced, otherwise only when absent.
    ///
    /// # Errors
    /// `FileExists` with the file's path when it exists and `force` is off.
    pub fn check_conflict(&self, name: &str, exists: bool) -> (r: Result<(), RefineryError>)
        ensures
            r is Ok <==> (self.force || !exists),
            r matches Err(e) ==> e matches RefineryError::FileExists(p) && p@ == workflow_path(
                self.output_dir@,
                name@,
            ),
    {
        if self.force {
            return Ok(());
        }
        if exists {
            return Err(RefineryError::FileExists(self.path_of(name)));
        }
        Ok(())
    }

    /// Whether a file at `path` may be written, given whether it exists.
    ///
    /// # Errors
    /// `FileExists` with the path when it exists and `force` is off.
    pub fn write_file(&self, path: &str, exists: bool) -> (r: Result<(), RefineryError>)
        ensures
            r is Ok <==> (self.force || !exists),
            r matches Err(e) ==> e matches RefineryError::FileExists(p) && p@ == path@,
    {
        if exists && !self.force {
            return Err(RefineryError::FileExists(owned(path)));
        }
        Ok(())
    }

    /// The CI workflow (`ci.yml`) for a configuration.
    ///
    /// # Errors
    /// `FileExists` when the file exists and `force` is off.
    pub fn write_ci(&self, config: &CiConfig, exists: bool) -> (r: Result<PlannedWrite, RefineryError>)
        ensures
            r is Ok <==> (self.force || !exists),
            r matches Ok(w) ==> w.path@ == workflow_path(self.output_dir@, "ci"@) && w.content@
                == ci_text(*config),
            r matches Err(e) ==> e matches RefineryError::FileExists(p) && p@ == workflow_path(
                self.output_dir@,
                "ci"@,
            ),
    {
        let path = self.path_of("ci");
        let mut content = owned(CI_HEAD);
        content = cat(content, bool_string(config.enable_sweet).as_str());
        content = cat(content, "\n          enable-clippy: ");
        content = cat(content, bool_string(config.enable_clippy).as_str());
        content = cat(content, "\n          enable-fmt: ");
        content = cat(content, bool_string(config.enable_fmt).as_str());
        content = cat(content, "\n");
        match self.write_file(path.as_str(), exists) {
            Ok(()) => Ok(PlannedWrite { path, content }),
            Err(e) => Err(e),
        }
    }

    /// The release workflow (`release.yml`) for a configuration: one build
    /// matrix entry per binary and target, and a crates.io job when asked.
    ///
    /// # Errors
    /// `FileExists` when the file exists and `force` is off.
    pub fn write_release(&self, config: &ReleaseConfig, exists: bool) -> (r: Result<
        PlannedWrite,
        RefineryError,
    >)
        ensures
            r is Ok <==> (self.force || !exists),
            r matches Ok(w) ==> w.path@ == workflow_path(self.output_dir@, "release"@)
                && w.content@ == release_text(*config),
            r matches Err(e) ==> e matches RefineryError::FileExists(p) && p@ == workflow_path(
                self.output_dir@,
                "release"@,
            ),
    {
        let path = self.path_of("release");
        let docker = config.features.publish_docker;
        let mut entries: Vec<String> = Vec::new();
        let mut i: usize = 0;
        while i < config.binaries.len()
            invariant
                docker == config.features.publish_docker,
                i <= config.binaries@.len(),
                entries.deep_view() == release_entries(
                    docker,
                    config.binaries@.subrange(0, i as int),
                ),
            decreases config.binaries@.len() - i,
        {
            let bin = &config.binaries[i];
            let ghost before = entries.deep_view();
            let mut j: usize = 0;
            while j < bin.targets.len()
                invariant
                    i < config.binaries@.len(),
                    *bin == config.binaries@[i as int],
                    j <= bin.targets@.len(),
                    binary_entries(docker, *bin).len() == bin.targets@.len(),
                    entries.deep_view().len() == before.len() + j,
                    forall|k: int| 0 <= k < before.len() ==> entries.deep_view()[k] == before[k],
                    forall|k: int|
                        0 <= k < j ==> entries.deep_view()[before.len() + k] == binary_entries(
                            docker,
                            *bin,
                        )[k],
                decreases bin.targets@.len() - j,
            {
                entries.push(release_entry_exec(docker, bin.targets[j].as_str(), bin));
                assert(binary_entries(docker, *bin)[j as int] == release_entry(
                    docker,
                    bin.targets@[j as int]@,
                    bin.name@,
                    bin.features@,
                    bin.export_libs,
                    bin.enable_packaging,
                ));
                j = j + 1;
            }
            proof {
                let bs = config.binaries@.subrange(0, i + 1);
                assert(bs.drop_last() =~= config.binaries@.subrange(0, i as int));
                assert(entries.deep_view() =~= before + binary_entries(docker, *bin));
            }
            i = i + 1;
        }
        assert(config.binaries@.subrange(0, i as int) =~= config.binaries@);
        let body = join(&entries, "\n");
        let mut content = owned(RELEASE_HEAD);
        content = cat(content, body.as_str());
        content = cat(content, RELEASE_TAIL);
        if config.features.publish_crates {
            content = cat(content, PUBLISH_CRATES_JOB);
        }
        match self.write_file(path.as_str(), exists) {
            Ok(()) => Ok(PlannedWrite { path, content }),
            Err(e) => Err(e),
        }
    }
}

/// Every binary's entry for each of its targets is among the matrix entries.
proof fn lemma_release_entries_hold(docker: bool, bins: Seq<BinaryConfig>, i: int, j: int)
    requires
        0 <= i < bins.len(),
        0 <= j < bins[i].targets@.len(),
    ensures
        release_entries(docker, bins).contains(
            release_entry(
                docker,
                bins[i].targets@[j]@,
                bins[i].name@,
                bins[i].features@,
                bins[i].export_libs,
                bins[i].enable_packaging,
            ),
        ),
    decreases bins.len(),
{
    let e = release_entry(
        docker,
        bins[i].targets@[j]@,
        bins[i].name@,
        bins[i].features@,
        bins[i].export_libs,
        bins[i].enable_packaging,
    );
    let prefix = release_entries(docker, bins.drop_last());
    let whole = release_entries(docker, bins);
    if i == bins.len() - 1 {
        assert(binary_entries(docker, bins.last())[j] == e);
        assert(whole[prefix.len() + j] == e);
    } else {
        lemma_release_entries_hold(docker, bins.drop_last(), i, j);
        assert(bins.drop_last()[i] == bins[i]);
        let k = choose|k: int| 0 <= k < prefix.len() && prefix[k] == e;
        assert(whole[k] == e);
    }
}

/// The release workflow holds, for every binary and each of its targets in
/// turn, one build matrix entry naming the target, its runner (Windows for
/// `windows` triples, macOS for `apple` ones, Ubuntu otherwise), the
/// binary, its features and packaging, whether Docker is published and
/// whether `cross` is used. It ends with the crates.io publishing job when
/// that is asked for, and with the build steps otherwise.
pub proof fn law_release_workflow_entries(c: ReleaseConfig, i: int, j: int)
    requires
        0 <= i < c.binaries@.len(),
        0 <= j < c.binaries@[i].targets@.len(),
    ensures
        contains_seq(
            release_text(c),
            release_entry(
                c.features.publish_docker,
                c.binaries@[i].targets@[j]@,
                c.binaries@[i].name@,
                c.binaries@[i].features@,
                c.binaries@[i].export_libs,
                c.binaries@[i].enable_packaging,
            ),
        ),
        c.features.publish_crates ==> has_suffix(release_text(c), PUBLISH_CRATES_JOB@),
        !c.features.publish_crates ==> has_suffix(release_text(c), RELEASE_TAIL@),
{
    let docker = c.features.publish_docker;
    let bins = c.binaries@;
    let entries = release_entries(docker, bins);
    let e = release_entry(
        docker,
        bins[i].targets@[j]@,
        bins[i].name@,
        bins[i].features@,
        bins[i].export_libs,
        bins[i].enable_packaging,
    );
    lemma_release_entries_hold(docker, bins, i, j);
    let k = choose|k: int| 0 <= k < entries.len() && entries[k] == e;
    lemma_join_contains(entries, "\n"@, k);
    let joined = join_with(entries, "\n"@);
    let text = release_text(c);
    if c.features.publish_crates {
        lemma_contains_within(RELEASE_HEAD@, joined, RELEASE_TAIL@ + PUBLISH_CRATES_JOB@, e);
        assert(RELEASE_HEAD@ + joined + (RELEASE_TAIL@ + PUBLISH_CRATES_JOB@) =~= text);
        assert(text.subrange(text.len() - PUBLISH_CRATES_JOB@.len(), text.len() as int)
            =~= PUBLISH_CRATES_JOB@);
    } else {
        lemma_contains_within(RELEASE_HEAD@, joined, RELEASE_TAIL@, e);
        assert(text.subrange(text.len() - RELEASE_TAIL@.len(), text.len() as int) =~= RELEASE_TAIL@);
    }
}

/// A text holds itself, with anything around it.
proof fn lemma_holds_middle(a: Seq<char>, b: Seq<char>, c: Seq<char>)
    ensures
        contains_seq(a + b + c, b),
{
    assert(b.subrange(0, b.len() as int) =~= b);
    assert(occurs_at(b, b, 0));
    lemma_contains_within(a, b, c, b);
}

/// The `target` line of a matrix entry.
#[verifier::spinoff_prover]
#[verifier::rlimit(60)]
proof fn lemma_entry_target(
    docker: bool,
    t: Seq<char>,
    name: Seq<char>,
    features: Seq<char>,
    export_libs: bool,
    package: bool,
)
    ensures
        contains_seq(release_entry(docker, t, name, features, export_libs, package), "- target: "@ + t + "\n            os: "@),
{
    let e = release_entry(docker, t, name, features, export_libs, package);
    let p0 = "          - target: "@;
    let p1 = "\n            os: "@;
    let p2 = "\n            bin: "@;
    let p3 = "\n            features: \""@;
    let p4 = "\"\n            export_libs: "@;
    let p5 = "\n            package: "@;
    let p6 = "\n            docker: "@;
    let p7 = "\n            use_cross: "@;
    let os = release_runner(t);
    let bx = bool_text(export_libs);
    let bp = bool_text(package);
    let bd = bool_text(release_docker(docker, t, name));
    let bc = bool_text(release_cross(t));
    assert(e =~= p0 + t + p1 + os + p2 + name + p3 + features + p4 + bx + p5 + bp + p6 + bd + p7 + bc);
    reveal_strlit("          - target: ");
    reveal_strlit("- target: ");
    reveal_strlit("          ");
    assert(p0 =~= "          "@ + "- target: "@);
    let rest = os + p2 + name + p3 + features + p4 + bx + p5 + bp + p6 + bd + p7 + bc;
    assert(e =~= "          "@ + ("- target: "@ + t + p1) + rest);
    lemma_holds_middle("          "@, "- target: "@ + t + p1, rest);
}

/// The `bin` line of a matrix entry.
#[verifier::spinoff_prover]
#[verifier::rlimit(60)]
proof fn lemma_entry_bin(
    docker: bool,
    t: Seq<char>,
    name: Seq<char>,
    features: Seq<char>,
    export_libs: bool,
    package: bool,
)
    ensures
        contains_seq(release_entry(docker, t, name, features, export_libs, package), "\n            bin: "@ + name + "\n            features: \""@ + features + "\"\n"@),
{
    let e = release_entry(docker, t, name, features, export_libs, package);
    let p0 = "          - target: "@;
    let p1 = "\n            os: "@;
    let p2 = "\n            bin: "@;
    let p3 = "\n            features: \""@;
    let p4 = "\"\n            export_libs: "@;
    let p5 = "\n            package: "@;
    let p6 = "\n            docker: "@;
    let p7 = "\n            use_cross: "@;
    let os = release_runner(t);
    let bx = bool_text(export_libs);
    let bp = bool_text(package);
    let bd = bool_text(release_docker(docker, t, name));
    let bc = bool_text(release_cross(t));
    assert(e =~= p0 + t + p1 + os + p2 + name + p3 + features + p4 + bx + p5 + bp + p6 + bd + p7 + bc);
    reveal_strlit("\"\n            export_libs: ");
    reveal_strlit("\"\n");
    reveal_strlit("            export_libs: ");
    assert(p4 =~= "\"\n"@ + "            export_libs: "@);
    let rest = "            export_libs: "@ + bx + p5 + bp + p6 + bd + p7 + bc;
    assert(e =~= (p0 + t + p1 + os) + (p2 + name + p3 + features + "\"\n"@) + rest);
    lemma_holds_middle(p0 + t + p1 + os, p2 + name + p3 + features + "\"\n"@, rest);
}

/// The `export` line of a matrix entry.
#[verifier::spinoff_prover]
proof fn lemma_entry_export(
    docker: bool,
    t: Seq<char>,
    name: Seq<char>,
    features: Seq<char>,
    export_libs: bool,
    package: bool,
)
    ensures
        contains_seq(release_entry(docker, t, name, features, export_libs, package), "\n            export_libs: "@ + (if export_libs {
                "true"@
            } else {
                "false"@
            }) + "\n            package: "@),
{
    let e = release_entry(docker, t, name, features, export_libs, package);
    let p0 = "          - target: "@;
    let p1 = "\n            os: "@;
    let p2 = "\n            bin: "@;
    let p3 = "\n            features: \""@;
    let p4 = "\"\n            export_libs: "@;
    let p5 = "\n            package: "@;
    let p6 = "\n            docker: "@;
    let p7 = "\n            use_cross: "@;
    let os = release_runner(t);
    let bx = bool_text(export_libs);
    let bp = bool_text(package);
    let bd = bool_text(release_docker(docker, t, name));
    let bc = bool_text(release_cross(t));
    assert(e =~= p0 + t + p1 + os + p2 + name + p3 + features + p4 + bx + p5 + bp + p6 + bd + p7 + bc);
    reveal_strlit("\"\n            export_libs: ");
    reveal_strlit("\n            export_libs: ");
    reveal_strlit("\"");
    assert(p4 =~= "\""@ + "\n            export_libs: "@);
    let head = p0 + t + p1 + os + p2 + name + p3 + features + "\""@;
    assert(e =~= head + ("\n            export_libs: "@ + bx + p5) + (bp + p6 + bd + p7 + bc));
    lemma_holds_middle(head, "\n            export_libs: "@ + bx + p5, bp + p6 + bd + p7 + bc);
}

/// The `package` line of a matrix entry.
#[verifier::spinoff_prover]
proof fn lemma_entry_package(
    docker: bool,
    t: Seq<char>,
    name: Seq<char>,
    features: Seq<char>,
    export_libs: bool,
    package: bool,
)
    ensures
        contains_seq(release_entry(docker, t, name, features, export_libs, package), "\n            package: "@ + (if package {
                "true"@
            } else {
                "false"@
            }) + "\n            docker: "@),
{
    let e = release_entry(docker, t, name, features, export_libs, package);
    let p0 = "          - target: "@;
    let p1 = "\n            os: "@;
    let p2 = "\n            bin: "@;
    let p3 = "\n            features: \""@;
    let p4 = "\"\n            export_libs: "@;
    let p5 = "\n            package: "@;
    let p6 = "\n            docker: "@;
    let p7 = "\n            use_cross: "@;
    let os = release_runner(t);
    let bx = bool_text(export_libs);
    let bp = bool_text(package);
    let bd = bool_text(release_docker(docker, t, name));
    let bc = bool_text(release_cross(t));
    assert(e =~= p0 + t + p1 + os + p2 + name + p3 + features + p4 + bx + p5 + bp + p6 + bd + p7 + bc);
    let head = p0 + t + p1 + os + p2 + name + p3 + features + p4 + bx;
    assert(e =~= head + (p5 + bp + p6) + (bd + p7 + bc));
    lemma_holds_middle(head, p5 + bp + p6, bd + p7 + bc);
}

/// The `os` line of a matrix entry.
#[verifier::spinoff_prover]
#[verifier::rlimit(60)]
proof fn lemma_entry_os(
    docker: bool,
    t: Seq<char>,
    name: Seq<char>,
    features: Seq<char>,
    export_libs: bool,
    package: bool,
)
    ensures
        contains_seq(
            release_entry(docker, t, name, features, export_libs, package),
            "\n            os: "@ + release_runner(t) + "\n            bin: "@,
        ),
{
    let e = release_entry(docker, t, name, features, export_libs, package);
    let p0 = "          - target: "@;
    let p1 = "\n            os: "@;
    let p2 = "\n            bin: "@;
    let p3 = "\n            features: \""@;
    let p4 = "\"\n            export_libs: "@;
    let p5 = "\n            package: "@;
    let p6 = "\n            docker: "@;
    let p7 = "\n            use_cross: "@;
    let os = release_runner(t);
    let bx = bool_text(export_libs);
    let bp = bool_text(package);
    let bd = bool_text(release_docker(docker, t, name));
    let bc = bool_text(release_cross(t));
    assert(e =~= p0 + t + p1 + os + p2 + name + p3 + features + p4 + bx + p5 + bp + p6 + bd + p7 + bc);
    let rest = name + p3 + features + p4 + bx + p5 + bp + p6 + bd + p7 + bc;
    assert(e =~= (p0 + t) + (p1 + os + p2) + rest);
    lemma_holds_middle(p0 + t, p1 + os + p2, rest);
}

/// The `use_cross` line ends a matrix entry.
#[verifier::spinoff_prover]
proof fn lemma_entry_cross(
    docker: bool,
    t: Seq<char>,
    name: Seq<char>,
    features: Seq<char>,
    export_libs: bool,
    package: bool,
)
    ensures
        has_suffix(
            release_entry(docker, t, name, features, export_libs, package),
            "\n            use_cross: "@ + (if contains_seq(t, "musl"@) || contains_seq(t, "i686"@)
                || contains_seq(t, "aarch64-unknown-linux-gnu"@) {
                "true"@
            } else {
                "false"@
            }),
        ),
{
    let e = release_entry(docker, t, name, features, export_libs, package);
    let p0 = "          - target: "@;
    let p1 = "\n            os: "@;
    let p2 = "\n            bin: "@;
    let p3 = "\n            features: \""@;
    let p4 = "\"\n            export_libs: "@;
    let p5 = "\n            package: "@;
    let p6 = "\n            docker: "@;
    let p7 = "\n            use_cross: "@;
    let os = release_runner(t);
    let bx = bool_text(export_libs);
    let bp = bool_text(package);
    let bd = bool_text(release_docker(docker, t, name));
    let bc = bool_text(release_cross(t));
    assert(e =~= p0 + t + p1 + os + p2 + name + p3 + features + p4 + bx + p5 + bp + p6 + bd + p7 + bc);
    let head = p0 + t + p1 + os + p2 + name + p3 + features + p4 + bx + p5 + bp + p6 + bd;
    assert(e =~= head + (p7 + bc));
    assert(e.subrange(e.len() - (p7 + bc).len(), e.len() as int) =~= p7 + bc);
}

/// The lines of a binary's matrix entry, each between its neighbours' keys:
/// the target and the binary's name as given; the runner Windows for a
/// `windows` triple, macOS for an `apple` one, Ubuntu otherwise; the
/// `export_libs` and `package` flags of the binary, each on its own;
/// `use_cross` for musl, i686 and aarch64 Linux GNU targets.
pub proof fn law_release_entry_fields(
    docker: bool,
    t: Seq<char>,
    name: Seq<char>,
    features: Seq<char>,
    export_libs: bool,
    package: bool,
)
    ensures
        contains_seq(
            release_entry(docker, t, name, features, export_libs, package),
            "- target: "@ + t + "\n            os: "@,
        ),
        contains_seq(
            release_entry(docker, t, name, features, export_libs, package),
            "\n            bin: "@ + name + "\n            features: \""@ + features + "\"\n"@,
        ),
        contains_seq(
            release_entry(docker, t, name, features, export_libs, package),
            "\n            export_libs: "@ + (if export_libs {
                "true"@
            } else {
                "false"@
            }) + "\n            package: "@,
        ),
        contains_seq(
            release_entry(docker, t, name, features, export_libs, package),
            "\n            package: "@ + (if package {
                "true"@
            } else {
                "false"@
            }) + "\n            docker: "@,
        ),
        contains_seq(
            release_entry(docker, t, name, features, export_libs, package),
            "\n            os: "@ + (if contains_seq(t, "windows"@) {
                "windows-latest"@
            } else if contains_seq(t, "apple"@) {
                "macos-latest"@
            } else {
                "ubuntu-latest"@
            }) + "\n            bin: "@,
        ),
        has_suffix(
            release_entry(docker, t, name, features, export_libs, package),
            "\n            use_cross: "@ + (if contains_seq(t, "musl"@) || contains_seq(t, "i686"@)
                || contains_seq(t, "aarch64-unknown-linux-gnu"@) {
                "true"@
            } else {
                "false"@
            }),
        ),
{
    lemma_entry_target(docker, t, name, features, export_libs, package);
    lemma_entry_bin(docker, t, name, features, export_libs, package);
    lemma_entry_export(docker, t, name, features, export_libs, package);
    lemma_entry_package(docker, t, name, features, export_libs, package);
    lemma_entry_os(docker, t, name, features, export_libs, package);
    assert(release_runner(t) == (if contains_seq(t, "windows"@) {
        "windows-latest"@
    } else if contains_seq(t, "apple"@) {
        "macos-latest"@
    } else {
        "ubuntu-latest"@
    }));
    lemma_entry_cross(docker, t, name, features, export_libs, package);
}

/// Each binary's release entries hold its own `package` flag, whatever its
/// `export_libs` flag: the release workflow contains, for binary `i` and
/// its target `j`, the entry's `package` line.
pub proof fn law_release_package_flag(c: ReleaseConfig, i: int, j: int)
    requires
        0 <= i < c.binaries@.len(),
        0 <= j < c.binaries@[i].targets@.len(),
    ensures
        contains_seq(
            release_text(c),
            "\n            package: "@ + (if c.binaries@[i].enable_packaging {
                "true"@
            } else {
                "false"@
            }) + "\n            docker: "@,
        ),
{
    let b = c.binaries@[i];
    let e = release_entry(
        c.features.publish_docker,
        b.targets@[j]@,
        b.name@,
        b.features@,
        b.export_libs,
        b.enable_packaging,
    );
    law_release_workflow_entries(c, i, j);
    law_release_entry_fields(
        c.features.publish_docker,
        b.targets@[j]@,
        b.name@,
        b.features@,
        b.export_libs,
        b.enable_packaging,
    );
    lemma_contains_trans(
        release_text(c),
        e,
        "\n            package: "@ + (if b.enable_packaging {
            "true"@
        } else {
            "false"@
        }) + "\n            docker: "@,
    );
}

} // verus!
