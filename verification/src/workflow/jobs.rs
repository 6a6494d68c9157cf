//! The matrix build job of the release pipeline.
use vstd::prelude::*;

use super::actions::{CHECKOUT, RUST_CACHE, RUST_TOOLCHAIN};
use super::types::{
    empty_step, Job, JobModel, Matrix, PairsModel, Step, StepModel, StrPairs, Strategy,
    StrategyModel,
};
use crate::errors::RefineryError;
use crate::schema::artifacts::BinaryModel;
use crate::schema::config::{gnu_of, musl_of, targets_error, ConfigModel, RefineryConfig};
use crate::schema::targets::{all_supported, triple_error, triples_of, MatrixModel, TargetMatrix};
use crate::schema::types::{LibC, OS};
use crate::text::{cat, owned, str_eq};

verus! {

pub const INSTALL_REFINERY: &'static str = "cargo install --git https://github.com/SirCesarium/refinery-rs --no-default-features";

pub const PACKAGERS_SCRIPT: &'static str = "if [ \"${{ runner.os }}\" = \"Windows\" ]; then\n  cargo install cargo-wix\nelse\n  cargo install cargo-deb cargo-generate-rpm\nfi";

pub const CROSS_INSTALL: &'static str = "curl -L https://github.com/cross-rs/cross/releases/latest/download/cross-x86_64-unknown-linux-musl.tar.gz | tar xz -C /usr/local/bin";

pub const LINKER_SCRIPT: &'static str = "if [ \"${{ matrix.target }}\" = \"aarch64-unknown-linux-gnu\" ]; then echo \"CARGO_TARGET_AARCH64_UNKNOWN_LINUX_GNU_LINKER=aarch64-linux-gnu-gcc\" >> $GITHUB_ENV; fi\nif [ \"${{ matrix.target }}\" = \"i686-unknown-linux-gnu\" ]; then echo \"LIBRARY_PATH=/usr/lib32\" >> $GITHUB_ENV; echo \"LD_LIBRARY_PATH=/usr/lib32\" >> $GITHUB_ENV; fi";

pub const PREPARE_0: &'static str = "mkdir -p dist\nif [ \"${{ runner.os }}\" = \"Windows\" ]; then\n  find target -name \"";

pub const PREPARE_1: &'static str = ".exe\" -path \"*/release/*\" -exec cp {} dist/";

pub const PREPARE_2: &'static str = "-${{ matrix.target }}.exe \\; 2>/dev/null || true\n  find target -name \"*.msi\" -exec cp {} dist/ \\; 2>/dev/null || true\nelse\n  find target -name \"";

pub const PREPARE_3: &'static str = "\" -path \"*/release/*\" -not -name \"*.d\" -exec cp {} dist/";

pub const PREPARE_4: &'static str = "-${{ matrix.target }} \\; 2>/dev/null || true\n  find target -name \"*.deb\" -exec cp {} dist/ \\; 2>/dev/null || true\n  find target -name \"*.rpm\" -exec cp {} dist/ \\; 2>/dev/null || true\nfi\nls -R dist/";

/// A named step that either uses an action or runs a command; commands run
/// in `bash`.
pub open spec fn simple_step(
    name: Seq<char>,
    uses: Option<Seq<char>>,
    run: Option<Seq<char>>,
) -> StepModel {
    StepModel {
        name: Some(name),
        uses,
        shell: if run is Some {
            Some("bash"@)
        } else {
            None
        },
        run,
        ..empty_step()
    }
}

/// Installs Debian packages needed by one Linux target.
pub open spec fn linux_dep_step(target: Seq<char>, pkgs: Seq<char>) -> StepModel {
    StepModel {
        name: Some("Deps: "@ + target),
        condition: Some("matrix.target == '"@ + target + "'"@),
        run: Some("sudo apt-get update && sudo apt-get install -y "@ + pkgs),
        shell: Some("bash"@),
        ..empty_step()
    }
}

/// Installs the Rust toolchain for the matrix target.
pub open spec fn toolchain_step() -> StepModel {
    StepModel {
        name: Some("Rust Toolchain"@),
        uses: Some(RUST_TOOLCHAIN@),
        with: Some(seq![("targets"@, "${{ matrix.target }}"@)]),
        ..empty_step()
    }
}

/// Installs the packaging tools of the runner's OS.
pub open spec fn packagers_step() -> StepModel {
    StepModel {
        name: Some("Install Packagers"@),
        shell: Some("bash"@),
        run: Some(PACKAGERS_SCRIPT@),
        ..empty_step()
    }
}

/// Installs `cross` when the matrix entry needs it.
pub open spec fn cross_step() -> StepModel {
    StepModel {
        name: Some("Install Cross"@),
        condition: Some("${{ matrix.use_cross == 'true' }}"@),
        run: Some(CROSS_INSTALL@),
        shell: Some("bash"@),
        ..empty_step()
    }
}

/// Configures linkers for the cross-compiled Linux GNU targets.
pub open spec fn linker_config_step() -> StepModel {
    StepModel {
        name: Some("Linker Config"@),
        shell: Some("bash"@),
        run: Some(LINKER_SCRIPT@),
        ..empty_step()
    }
}

/// The script that collects the built files of binary `name` into `dist/`.
pub open spec fn prepare_script(name: Seq<char>) -> Seq<char> {
    PREPARE_0@ + name + PREPARE_1@ + name + PREPARE_2@ + name + PREPARE_3@ + name + PREPARE_4@
}

/// Collects the artifacts of binary `name`.
pub open spec fn prepare_step(name: Seq<char>) -> StepModel {
    StepModel {
        name: Some("Prepare Artifacts: "@ + name),
        run: Some(prepare_script(name)),
        shell: Some("bash"@),
        ..empty_step()
    }
}

/// Uploads `dist/` as the artifact of the matrix target.
pub open spec fn upload_step() -> StepModel {
    StepModel {
        name: Some("Upload Artifacts"@),
        uses: Some("actions/upload-artifact@v4"@),
        with: Some(
            seq![
                ("name"@, "artifact-${{ matrix.target }}"@),
                ("path"@, "dist/*"@),
                ("if-no-files-found"@, "error"@),
            ],
        ),
        ..empty_step()
    }
}

/// The steps every build runs before collecting artifacts.
pub open spec fn base_steps() -> Seq<StepModel> {
    seq![
        simple_step("Checkout"@, Some(CHECKOUT@), None),
        toolchain_step(),
        simple_step("Rust Cache"@, Some(RUST_CACHE@), None),
        linux_dep_step("i686-unknown-linux-gnu"@, "gcc-multilib libc6-dev-i386"@),
        linux_dep_step(
            "aarch64-unknown-linux-gnu"@,
            "gcc-aarch64-linux-gnu libc6-dev-arm64-cross"@,
        ),
        linker_config_step(),
        packagers_step(),
        simple_step("Install Refinery"@, None, Some(INSTALL_REFINERY@)),
        cross_step(),
        simple_step("Check Format"@, None, Some("cargo fmt --check"@)),
        simple_step("Clippy"@, None, Some("cargo clippy -- -D warnings"@)),
        simple_step(
            "Build"@,
            None,
            Some("refinery build --target ${{ matrix.target }} --release"@),
        ),
    ]
}

/// All steps of the build job: base steps, one collection step per binary,
/// then the upload.
pub open spec fn build_steps(c: ConfigModel) -> Seq<StepModel> {
    base_steps() + c.binaries.map_values(|b: BinaryModel| prepare_step(b.name)) + seq![
        upload_step(),
    ]
}

/// The GitHub runner image for an OS.
pub open spec fn runner_of(os: OS) -> Seq<char> {
    match os {
        OS::Linux => "ubuntu-latest"@,
        OS::Windows => "windows-latest"@,
        OS::Macos => "macos-latest"@,
    }
}

/// A target is built with `cross`: every Linux target except native
/// `x86_64` GNU.
pub open spec fn uses_cross(os: OS, libc: Option<LibC>, triple: Seq<char>) -> bool {
    os == OS::Linux && (libc == Some(LibC::Musl) || triple != "x86_64-unknown-linux-gnu"@)
}

/// `true` or `false`.
pub open spec fn bool_text(b: bool) -> Seq<char> {
    if b {
        "true"@
    } else {
        "false"@
    }
}

/// The matrix entry of one target triple.
pub open spec fn target_entry(os: OS, libc: Option<LibC>, t: Seq<char>) -> PairsModel {
    seq![
        ("target"@, t),
        ("os"@, runner_of(os)),
        ("use_cross"@, bool_text(uses_cross(os, libc, t))),
    ]
}

/// The matrix entries of one target matrix.
pub open spec fn target_entries(m: MatrixModel, os: OS, libc: Option<LibC>) -> Seq<PairsModel> {
    triples_of(m.archs, os, libc).map_values(|t: Seq<char>| target_entry(os, libc, t))
}

/// The matrix entries of an optional target matrix.
pub open spec fn opt_entries(m: Option<MatrixModel>, os: OS, libc: Option<LibC>) -> Seq<
    PairsModel,
> {
    match m {
        Some(m) => target_entries(m, os, libc),
        None => Seq::empty(),
    }
}

/// All matrix entries: Linux GNU, Linux musl, Windows, then macOS.
pub open spec fn matrix_entries(c: ConfigModel) -> Seq<PairsModel> {
    opt_entries(gnu_of(c.targets), OS::Linux, Some(LibC::Gnu)) + opt_entries(
        musl_of(c.targets),
        OS::Linux,
        Some(LibC::Musl),
    ) + opt_entries(c.targets.windows, OS::Windows, None) + opt_entries(
        c.targets.macos,
        OS::Macos,
        None,
    )
}

/// The matrix build job of a configuration.
pub open spec fn matrix_job(c: ConfigModel) -> JobModel {
    JobModel {
        name: "Build ${{ matrix.target }}"@,
        runs_on: "${{ matrix.os }}"@,
        needs: None,
        condition: None,
        strategy: Some(StrategyModel { fail_fast: true, entries: Some(matrix_entries(c)) }),
        steps: build_steps(c),
    }
}

fn bash() -> (r: Option<String>)
    ensures
        r.deep_view() == Some("bash"@),
{
    Some(owned("bash"))
}

fn create_simple_step(name: &str, uses: Option<String>, run: Option<String>) -> (r: Step)
    ensures
        r@ == simple_step(name@, uses.deep_view(), run.deep_view()),
{
    let shell = if run.is_some() {
        bash()
    } else {
        None
    };
    Step { name: Some(owned(name)), uses, run, with: None, env: None, condition: None, shell }
}

fn create_linux_dep_step(target: &str, pkgs: &str) -> (r: Step)
    ensures
        r@ == linux_dep_step(target@, pkgs@),
{
    let name = cat(owned("Deps: "), target);
    let condition = cat(cat(owned("matrix.target == '"), target), "'");
    let run = cat(owned("sudo apt-get update && sudo apt-get install -y "), pkgs);
    Step {
        name: Some(name),
        uses: None,
        run: Some(run),
        with: None,
        env: None,
        condition: Some(condition),
        shell: bash(),
    }
}

fn create_toolchain_step() -> (r: Step)
    ensures
        r@ == toolchain_step(),
{
    let mut m: StrPairs = Vec::new();
    m.push((owned("targets"), owned("${{ matrix.target }}")));
    assert(m.deep_view() =~= seq![("targets"@, "${{ matrix.target }}"@)]);
    Step {
        name: Some(owned("Rust Toolchain")),
        uses: Some(owned(RUST_TOOLCHAIN)),
        run: None,
        with: Some(m),
        env: None,
        condition: None,
        shell: None,
    }
}

fn create_packagers_step() -> (r: Step)
    ensures
        r@ == packagers_step(),
{
    Step {
        name: Some(owned("Install Packagers")),
        uses: None,
        run: Some(owned(PACKAGERS_SCRIPT)),
        with: None,
        env: None,
        condition: None,
        shell: bash(),
    }
}

fn create_cross_step() -> (r: Step)
    ensures
        r@ == cross_step(),
{
    Step {
        name: Some(owned("Install Cross")),
        uses: None,
        run: Some(owned(CROSS_INSTALL)),
        with: None,
        env: None,
        condition: Some(owned("${{ matrix.use_cross == 'true' }}")),
        shell: bash(),
    }
}

fn create_linker_config_step() -> (r: Step)
    ensures
        r@ == linker_config_step(),
{
    Step {
        name: Some(owned("Linker Config")),
        uses: None,
        run: Some(owned(LINKER_SCRIPT)),
        with: None,
        env: None,
        condition: None,
        shell: bash(),
    }
}

fn create_prepare_step(name: &str) -> (r: Step)
    ensures
        r@ == prepare_step(name@),
{
    let mut run = owned(PREPARE_0);
    run = cat(run, name);
    run = cat(run, PREPARE_1);
    run = cat(run, name);
    run = cat(run, PREPARE_2);
    run = cat(run, name);
    run = cat(run, PREPARE_3);
    run = cat(run, name);
    run = cat(run, PREPARE_4);
    Step {
        name: Some(cat(owned("Prepare Artifacts: "), name)),
        uses: None,
        run: Some(run),
        with: None,
        env: None,
        condition: None,
        shell: bash(),
    }
}

fn create_upload_step() -> (r: Step)
    ensures
        r@ == upload_step(),
{
    let mut m: StrPairs = Vec::new();
    m.push((owned("name"), owned("artifact-${{ matrix.target }}")));
    m.push((owned("path"), owned("dist/*")));
    m.push((owned("if-no-files-found"), owned("error")));
    assert(m.deep_view() =~= seq![
        ("name"@, "artifact-${{ matrix.target }}"@),
        ("path"@, "dist/*"@),
        ("if-no-files-found"@, "error"@),
    ]);
    Step {
        name: Some(owned("Upload Artifacts")),
        uses: Some(owned("actions/upload-artifact@v4")),
        run: None,
        with: Some(m),
        env: None,
        condition: None,
        shell: None,
    }
}

fn create_base_steps() -> (r: Vec<Step>)
    ensures
        r.deep_view() == base_steps(),
{
    let mut v: Vec<Step> = Vec::new();
    v.push(create_simple_step("Checkout", Some(owned(CHECKOUT)), None));
    v.push(create_toolchain_step());
    v.push(create_simple_step("Rust Cache", Some(owned(RUST_CACHE)), None));
    v.push(create_linux_dep_step("i686-unknown-linux-gnu", "gcc-multilib libc6-dev-i386"));
    v.push(
        create_linux_dep_step(
            "aarch64-unknown-linux-gnu",
            "gcc-aarch64-linux-gnu libc6-dev-arm64-cross",
        ),
    );
    v.push(create_linker_config_step());
    v.push(create_packagers_step());
    v.push(create_simple_step("Install Refinery", None, Some(owned(INSTALL_REFINERY))));
    v.push(create_cross_step());
    v.push(create_simple_step("Check Format", None, Some(owned("cargo fmt --check"))));
    v.push(create_simple_step("Clippy", None, Some(owned("cargo clippy -- -D warnings"))));
    v.push(
        create_simple_step(
            "Build",
            None,
            Some(owned("refinery build --target ${{ matrix.target }} --release")),
        ),
    );
    assert(v.deep_view() =~= base_steps());
    v
}

fn create_build_steps(config: &RefineryConfig) -> (r: Vec<Step>)
    ensures
        r.deep_view() == build_steps(config@),
{
    let mut steps = create_base_steps();
    let ghost base = steps.deep_view();
    let mut i: usize = 0;
    while i < config.binaries.len()
        invariant
            base == base_steps(),
            i <= config.binaries@.len(),
            steps.deep_view().len() == base.len() + i,
            forall|k: int| 0 <= k < base.len() ==> steps.deep_view()[k] == base[k],
            forall|k: int|
                0 <= k < i ==> steps.deep_view()[base.len() + k] == prepare_step(
                    config@.binaries[k].name,
                ),
        decreases config.binaries@.len() - i,
    {
        steps.push(create_prepare_step(config.binaries[i].name.as_str()));
        proof {
            assert(config@.binaries[i as int] == config.binaries@[i as int]@);
        }
        i = i + 1;
    }
    steps.push(create_upload_step());
    assert(steps.deep_view() =~= build_steps(config@));
    steps
}

fn runner_name(os: OS) -> (r: String)
    ensures
        r@ == runner_of(os),
{
    match os {
        OS::Linux => owned("ubuntu-latest"),
        OS::Windows => owned("windows-latest"),
        OS::Macos => owned("macos-latest"),
    }
}

fn add_targets(
    inc: &mut Vec<StrPairs>,
    matrix: &TargetMatrix,
    os: OS,
    libc: Option<LibC>,
) -> (r: Result<(), RefineryError>)
    ensures
        r is Ok <==> all_supported(matrix@.archs, os, libc),
        r is Ok ==> final(inc).deep_view() == old(inc).deep_view() + target_entries(
            matrix@,
            os,
            libc,
        ),
        r matches Err(e) ==> e matches RefineryError::Config(m) && m@ == triple_error(os),
{
    let triples = match matrix.get_triples(os, libc) {
        Ok(t) => t,
        Err(e) => return Err(e),
    };
    let ghost start = inc.deep_view();
    let ghost ts = triples.deep_view();
    let mut i: usize = 0;
    while i < triples.len()
        invariant
            ts == triples.deep_view(),
            ts == triples_of(matrix@.archs, os, libc),
            i <= ts.len(),
            inc.deep_view().len() == start.len() + i,
            forall|k: int| 0 <= k < start.len() ==> inc.deep_view()[k] == start[k],
            forall|k: int|
                0 <= k < i ==> inc.deep_view()[start.len() + k] == target_entry(os, libc, ts[k]),
        decreases ts.len() - i,
    {
        let triple = &triples[i];
        let is_native = str_eq(triple.as_str(), "x86_64-unknown-linux-gnu");
        let cross = os == OS::Linux && (libc == Some(LibC::Musl) || !is_native);
        let mut m: StrPairs = Vec::new();
        m.push((owned("target"), triple.clone()));
        m.push((owned("os"), runner_name(os)));
        m.push((owned("use_cross"), if cross { owned("true") } else { owned("false") }));
        proof {
            assert(ts[i as int] == triple@);
            assert(m.deep_view() =~= target_entry(os, libc, ts[i as int]));
        }
        inc.push(m);
        i = i + 1;
    }
    assert(inc.deep_view() =~= start + target_entries(matrix@, os, libc));
    Ok(())
}

/// Builds the matrix build job of a configuration: one matrix entry per
/// target triple (Linux GNU, Linux musl, Windows, macOS), each with its
/// runner image and whether it builds with `cross`.
///
/// # Errors
/// The configuration error of the first target matrix that lists an
/// unsupported architecture.
pub fn create_matrix_job(config: &RefineryConfig) -> (r: Result<Job, RefineryError>)
    ensures
        r is Ok <==> targets_error(config@.targets) is None,
        r matches Ok(j) ==> j@ == matrix_job(config@),
        r matches Err(e) ==> e matches RefineryError::Config(m) && targets_error(config@.targets)
            == Some(m@),
{
    let mut collected: Vec<StrPairs> = Vec::new();
    let ghost c = config@;
    assert(collected.deep_view() =~= Seq::<PairsModel>::empty());
    if let Some(linux) = &config.targets.linux {
        if let Some(gnu) = &linux.gnu {
            add_targets(&mut collected, gnu, OS::Linux, Some(LibC::Gnu))?;
        }
    }
    assert(collected.deep_view() =~= opt_entries(gnu_of(c.targets), OS::Linux, Some(LibC::Gnu)));
    if let Some(linux) = &config.targets.linux {
        if let Some(musl) = &linux.musl {
            add_targets(&mut collected, musl, OS::Linux, Some(LibC::Musl))?;
        }
    }
    assert(collected.deep_view() =~= opt_entries(gnu_of(c.targets), OS::Linux, Some(LibC::Gnu))
        + opt_entries(musl_of(c.targets), OS::Linux, Some(LibC::Musl)));
    if let Some(windows) = &config.targets.windows {
        add_targets(&mut collected, windows, OS::Windows, None)?;
    }
    assert(collected.deep_view() =~= opt_entries(gnu_of(c.targets), OS::Linux, Some(LibC::Gnu))
        + opt_entries(musl_of(c.targets), OS::Linux, Some(LibC::Musl)) + opt_entries(
        c.targets.windows,
        OS::Windows,
        None,
    ));
    if let Some(macos) = &config.targets.macos {
        add_targets(&mut collected, macos, OS::Macos, None)?;
    }
    assert(collected.deep_view() =~= matrix_entries(c));
    Ok(
        Job {
            name: owned("Build ${{ matrix.target }}"),
            runs_on: owned("${{ matrix.os }}"),
            needs: None,
            condition: None,
            strategy: Some(
                Strategy { fail_fast: true, matrix: Matrix { entries: Some(collected) } },
            ),
            steps: create_build_steps(config),
        },
    )
}

/// The number of architectures of an optional matrix.
pub open spec fn arch_count(m: Option<MatrixModel>) -> nat {
    match m {
        Some(x) => x.archs.len(),
        None => 0,
    }
}

/// The build job runs the fixed steps (checkout to build), then one
/// collection step per binary in order, then the upload. Its matrix holds
/// one entry per architecture of each matrix, Linux GNU first, then musl,
/// Windows and macOS.
pub proof fn law_matrix_job_shape(c: ConfigModel)
    ensures
        base_steps().len() == 12,
        matrix_job(c).steps.len() == base_steps().len() + c.binaries.len() + 1,
        matrix_job(c).steps.subrange(0, base_steps().len() as int) == base_steps(),
        forall|i: int|
            0 <= i < c.binaries.len() ==> #[trigger] matrix_job(c).steps[base_steps().len() + i]
                == prepare_step(c.binaries[i].name),
        matrix_job(c).steps.last() == upload_step(),
        matrix_entries(c).len() == arch_count(gnu_of(c.targets)) + arch_count(musl_of(c.targets))
            + arch_count(c.targets.windows) + arch_count(c.targets.macos),
{
    let steps = matrix_job(c).steps;
    let prep = c.binaries.map_values(|b: BinaryModel| prepare_step(b.name));
    assert(steps =~= base_steps() + prep + seq![upload_step()]);
    assert(steps.subrange(0, base_steps().len() as int) =~= base_steps());
    assert forall|i: int| 0 <= i < c.binaries.len() implies #[trigger] steps[base_steps().len() + i]
        == prepare_step(c.binaries[i].name) by {
        assert(steps[base_steps().len() + i] == prep[i]);
    }
}

} // verus!
