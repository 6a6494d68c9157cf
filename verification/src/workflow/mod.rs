//! GitHub Actions workflow generation.
pub mod actions;
pub mod jobs;
pub mod types;

use vstd::prelude::*;

use self::actions::{
    default_permissions, default_permissions_model, CHECKOUT, DOWNLOAD_ARTIFACT, RUST_TOOLCHAIN,
    SOFTPROPS_RELEASE, SWEET_BINARY, SWEET_DEFAULT_VERSION, SWEET_REPO, UPLOAD_ARTIFACT,
};
use self::jobs::{create_matrix_job, matrix_job, INSTALL_REFINERY};
use self::types::{
    empty_job, empty_step, EventsModel, Job, JobModel, JobsModel, PairsModel, PushEvent, PushModel,
    Step, StepModel, StrPairs, WorkflowEvents, WorkflowJobs,
};
use crate::errors::RefineryError;
use crate::schema::config::{targets_error, ConfigModel, RefineryConfig};
use crate::text::{
    any_contains, any_contains_exec, cat, contains_seq, join, join_with, lemma_contains_trans,
    lemma_contains_within, lemma_join_contains, occurs_at, owned, str_eq,
};

verus! {

/// A GitHub Actions workflow.
pub struct Workflow {
    pub name: String,
    pub on: WorkflowEvents,
    pub permissions: Option<StrPairs>,
    pub env: Option<StrPairs>,
    pub jobs: WorkflowJobs,
}

/// Abstract value of a [`Workflow`].
pub struct WorkflowModel {
    pub name: Seq<char>,
    pub on: EventsModel,
    pub permissions: Option<PairsModel>,
    pub env: Option<PairsModel>,
    pub jobs: JobsModel,
}

impl View for Workflow {
    type V = WorkflowModel;

    open spec fn view(&self) -> WorkflowModel {
        WorkflowModel {
            name: self.name@,
            on: self.on@,
            permissions: self.permissions.deep_view(),
            env: self.env.deep_view(),
            jobs: self.jobs@,
        }
    }
}

/// Triggered by pushing a version tag (`v*`).
pub open spec fn tag_push_events() -> EventsModel {
    EventsModel {
        push: Some(PushModel { branches: None, tags: Some(seq!["v*"@]) }),
        pull_request: None,
        release: None,
        workflow_dispatch: false,
    }
}

/// A fresh workflow: triggered by version tags, with empty build and release
/// jobs.
pub open spec fn new_workflow(name: Seq<char>) -> WorkflowModel {
    WorkflowModel {
        name,
        on: tag_push_events(),
        permissions: None,
        env: None,
        jobs: JobsModel { prepare: None, build: empty_job(), release: empty_job() },
    }
}

/// A named step; commands run in `bash`.
pub open spec fn step_model(
    name: Seq<char>,
    uses: Option<Seq<char>>,
    with: Option<PairsModel>,
    run: Option<Seq<char>>,
) -> StepModel {
    StepModel {
        name: Some(name),
        uses,
        shell: if run is Some {
            Some("bash"@)
        } else {
            None
        },
        run,
        with,
        ..empty_step()
    }
}

/// A step that runs one command.
pub open spec fn run_step_model(name: Seq<char>, cmd: Seq<char>) -> StepModel {
    step_model(name, None, None, Some(cmd))
}

/// Uploads `path` as the artifact `name`.
pub open spec fn upload_step_model(name: Seq<char>, path: Seq<char>) -> StepModel {
    step_model(
        "Upload "@ + name,
        Some(UPLOAD_ARTIFACT@),
        Some(seq![("name"@, name), ("path"@, path)]),
        None,
    )
}

/// Downloads the artifact `name` into `path`; the `artifacts` download
/// merges all build artifacts into one directory.
pub open spec fn download_step_model(name: Seq<char>, path: Seq<char>) -> StepModel {
    let base = seq![("name"@, name), ("path"@, path)];
    step_model(
        "Download "@ + name,
        Some(DOWNLOAD_ARTIFACT@),
        Some(
            if name == "artifacts"@ {
                base.push(("merge-multiple"@, "true"@))
            } else {
                base
            },
        ),
        None,
    )
}

/// The job that generates C headers before the build.
pub open spec fn prepare_job_model() -> JobModel {
    JobModel {
        name: "Prepare Assets"@,
        runs_on: "ubuntu-latest"@,
        steps: seq![
            step_model("Checkout"@, Some(CHECKOUT@), None, None),
            step_model("Install Toolchain"@, Some(RUST_TOOLCHAIN@), None, None),
            run_step_model("Install Refinery"@, INSTALL_REFINERY@),
            run_step_model("Install cbindgen"@, "cargo install cbindgen"@),
            run_step_model("Generate Headers"@, "refinery build --headers-only"@),
            upload_step_model("headers"@, "*.h"@),
        ],
        ..empty_job()
    }
}

/// The job that publishes all build artifacts as a GitHub release.
pub open spec fn release_job_model() -> JobModel {
    JobModel {
        name: "Release Artifacts"@,
        runs_on: "ubuntu-latest"@,
        needs: Some(seq!["build"@]),
        steps: seq![
            step_model("Checkout"@, Some(CHECKOUT@), None, None),
            download_step_model("artifacts"@, "artifacts"@),
            step_model(
                "Publish Release"@,
                Some(SOFTPROPS_RELEASE@),
                Some(seq![("files"@, "artifacts/*"@)]),
                None,
            ),
        ],
        ..empty_job()
    }
}

/// Some library asks for C headers.
pub open spec fn any_headers(c: ConfigModel) -> bool {
    exists|i: int| 0 <= i < c.libraries.len() && (#[trigger] c.libraries[i]).headers
}

/// The build job of the pipeline: the matrix job, which waits for the
/// header job and downloads the headers when there is one.
pub open spec fn pipeline_build_job(c: ConfigModel) -> JobModel {
    let m = matrix_job(c);
    if any_headers(c) {
        JobModel {
            needs: Some(seq!["prepare"@]),
            steps: m.steps.insert(1, download_step_model("headers"@, "."@)),
            ..m
        }
    } else {
        m
    }
}

/// The unified pipeline of a configuration.
pub open spec fn primary_workflow_model(c: ConfigModel) -> WorkflowModel {
    WorkflowModel {
        permissions: Some(default_permissions_model()),
        jobs: JobsModel {
            prepare: if any_headers(c) {
                Some(prepare_job_model())
            } else {
                None
            },
            build: pipeline_build_job(c),
            release: release_job_model(),
        },
        ..new_workflow("Refinery Pipeline"@)
    }
}

pub const QUALITY_GATE_HEAD: &'static str = "name: Quality Gate\non:\n  push:\n    branches: [ main ]\n  pull_request:\n    branches: [ main ]\njobs:\n  check:\n    name: Quality & Testing\n    runs-on: ubuntu-latest\n    steps:\n";

pub const QG_CHECKOUT: &'static str = "      - uses: actions/checkout@v6";

pub const QG_TOOLCHAIN: &'static str = "      - uses: dtolnay/rust-toolchain@stable\n        with:\n          components: clippy, rustfmt";

pub const QG_CACHE: &'static str = "      - uses: Swatinem/rust-cache@v2";

pub const QG_FORMAT: &'static str = "      - name: Check Format\n        run: cargo fmt --check";

pub const QG_TESTS: &'static str = "      - name: Run Tests\n        run: cargo test";

/// The Sweet analysis step of the quality gate.
pub open spec fn sweet_line() -> Seq<char> {
    "      - name: Sweet Analysis\n        run: curl -L "@ + SWEET_REPO@ + "/releases/download/"@
        + SWEET_DEFAULT_VERSION@ + "/"@ + SWEET_BINARY@ + " -o swt && chmod +x swt && ./swt"@
}

/// The Clippy step of the quality gate.
pub open spec fn clippy_line(flags: Seq<char>) -> Seq<char> {
    "      - name: Clippy\n        run: cargo clippy "@ + flags
}

/// The step lines of the quality gate for the selected checks.
pub open spec fn quality_gate_lines(checks: Seq<Seq<char>>, flags: Seq<char>) -> Seq<Seq<char>> {
    let l0 = seq![QG_CHECKOUT@, QG_TOOLCHAIN@, QG_CACHE@];
    let l1 = if any_contains(checks, "Sweet"@) {
        l0.push(sweet_line())
    } else {
        l0
    };
    let l2 = if any_contains(checks, "Format"@) {
        l1.push(QG_FORMAT@)
    } else {
        l1
    };
    let l3 = if any_contains(checks, "Clippy"@) {
        l2.push(clippy_line(flags))
    } else {
        l2
    };
    if any_contains(checks, "Tests"@) {
        l3.push(QG_TESTS@)
    } else {
        l3
    }
}

/// The quality gate workflow document.
pub open spec fn quality_gate_text(checks: Seq<Seq<char>>, flags: Seq<char>) -> Seq<char> {
    QUALITY_GATE_HEAD@ + join_with(quality_gate_lines(checks, flags), "\n"@) + "\n"@
}

fn strings1(a: &str) -> (r: Vec<String>)
    ensures
        r.deep_view() == seq![a@],
{
    let mut v: Vec<String> = Vec::new();
    v.push(owned(a));
    assert(v.deep_view() =~= seq![a@]);
    v
}

fn create_step(name: &str, uses: Option<String>, with: Option<StrPairs>, run: Option<String>) -> (r:
    Step)
    ensures
        r@ == step_model(name@, uses.deep_view(), with.deep_view(), run.deep_view()),
{
    let shell = if run.is_some() {
        Some(owned("bash"))
    } else {
        None
    };
    Step { name: Some(owned(name)), uses, run, with, env: None, condition: None, shell }
}

fn create_run_step(name: &str, cmd: &str) -> (r: Step)
    ensures
        r@ == run_step_model(name@, cmd@),
{
    create_step(name, None, None, Some(owned(cmd)))
}

fn name_path(name: &str, path: &str) -> (r: StrPairs)
    ensures
        r.deep_view() == seq![("name"@, name@), ("path"@, path@)],
{
    let mut m: StrPairs = Vec::new();
    m.push((owned("name"), owned(name)));
    m.push((owned("path"), owned(path)));
    assert(m.deep_view() =~= seq![("name"@, name@), ("path"@, path@)]);
    m
}

fn create_upload_step(name: &str, path: &str) -> (r: Step)
    ensures
        r@ == upload_step_model(name@, path@),
{
    let label = cat(owned("Upload "), name);
    create_step(label.as_str(), Some(owned(UPLOAD_ARTIFACT)), Some(name_path(name, path)), None)
}

fn create_download_step(name: &str, path: &str) -> (r: Step)
    ensures
        r@ == download_step_model(name@, path@),
{
    let mut m = name_path(name, path);
    let ghost base = m.deep_view();
    if str_eq(name, "artifacts") {
        m.push((owned("merge-multiple"), owned("true")));
        assert(m.deep_view() =~= base.push(("merge-multiple"@, "true"@)));
    }
    let label = cat(owned("Download "), name);
    create_step(label.as_str(), Some(owned(DOWNLOAD_ARTIFACT)), Some(m), None)
}

fn create_prepare_job() -> (r: Job)
    ensures
        r@ == prepare_job_model(),
{
    let mut steps: Vec<Step> = Vec::new();
    steps.push(create_step("Checkout", Some(owned(CHECKOUT)), None, None));
    steps.push(create_step("Install Toolchain", Some(owned(RUST_TOOLCHAIN)), None, None));
    steps.push(create_run_step("Install Refinery", INSTALL_REFINERY));
    steps.push(create_run_step("Install cbindgen", "cargo install cbindgen"));
    steps.push(create_run_step("Generate Headers", "refinery build --headers-only"));
    steps.push(create_upload_step("headers", "*.h"));
    let r = Job {
        name: owned("Prepare Assets"),
        runs_on: owned("ubuntu-latest"),
        needs: None,
        condition: None,
        strategy: None,
        steps,
    };
    assert(r@.steps =~= prepare_job_model().steps);
    r
}

fn create_release_job() -> (r: Job)
    ensures
        r@ == release_job_model(),
{
    let mut m: StrPairs = Vec::new();
    m.push((owned("files"), owned("artifacts/*")));
    assert(m.deep_view() =~= seq![("files"@, "artifacts/*"@)]);
    let mut steps: Vec<Step> = Vec::new();
    steps.push(create_step("Checkout", Some(owned(CHECKOUT)), None, None));
    steps.push(create_download_step("artifacts", "artifacts"));
    steps.push(create_step("Publish Release", Some(owned(SOFTPROPS_RELEASE)), Some(m), None));
    let r = Job {
        name: owned("Release Artifacts"),
        runs_on: owned("ubuntu-latest"),
        needs: Some(strings1("build")),
        condition: None,
        strategy: None,
        steps,
    };
    assert(r@.steps =~= release_job_model().steps);
    r
}

fn has_headers(config: &RefineryConfig) -> (r: bool)
    ensures
        r == any_headers(config@),
{
    let mut i: usize = 0;
    while i < config.libraries.len()
        invariant
            i <= config.libraries@.len(),
            forall|k: int| 0 <= k < i ==> !(#[trigger] config@.libraries[k]).headers,
        decreases config.libraries@.len() - i,
    {
        if config.libraries[i].headers {
            assert(config@.libraries[i as int] == config.libraries@[i as int]@);
            return true;
        }
        assert(config@.libraries[i as int] == config.libraries@[i as int]@);
        i = i + 1;
    }
    false
}

impl Workflow {
    /// A workflow named `name`, triggered by pushing version tags, with
    /// empty build and release jobs.
    pub fn new(name: &str) -> (r: Self)
        ensures
            r@ == new_workflow(name@),
    {
        let push = PushEvent { branches: None, tags: Some(strings1("v*")) };
        let on = WorkflowEvents {
            push: Some(push),
            pull_request: None,
            release: None,
            workflow_dispatch: false,
        };
        Workflow {
            name: owned(name),
            on,
            permissions: None,
            env: None,
            jobs: WorkflowJobs { prepare: None, build: Job::default(), release: Job::default() },
        }
    }

    /// The unified release pipeline of a configuration: an optional header
    /// job (when a library asks for C headers), the matrix build job, and
    /// the release job.
    ///
    /// # Errors
    /// The configuration error of the first target matrix that lists an
    /// unsupported architecture.
    pub fn primary_workflow(config: &RefineryConfig) -> (r: Result<Self, RefineryError>)
        ensures
            r is Ok <==> targets_error(config@.targets) is None,
            r matches Ok(w) ==> w@ == primary_workflow_model(config@),
            r matches Err(e) ==> e matches RefineryError::Config(m) && targets_error(
                config@.targets,
            ) == Some(m@),
    {
        let mut workflow = Self::new("Refinery Pipeline");
        workflow.permissions = Some(default_permissions());
        let prepare = if has_headers(config) {
            Some(create_prepare_job())
        } else {
            None
        };
        let mut build = create_matrix_job(config)?;
        if prepare.is_some() {
            build.needs = Some(strings1("prepare"));
            build.steps.insert(1, create_download_step("headers", "."));
            assert(build@.steps =~= matrix_job(config@).steps.insert(
                1,
                download_step_model("headers"@, "."@),
            ));
        }
        workflow.jobs = WorkflowJobs { prepare, build, release: create_release_job() };
        Ok(workflow)
    }

    /// The quality gate workflow (as YAML text) running the selected checks:
    /// a check is selected when some entry of `checks` mentions `Sweet`,
    /// `Format`, `Clippy` or `Tests`.
    pub fn quality_gate(checks: &[String], clippy_flags: &str) -> (r: String)
        ensures
            r@ == quality_gate_text(checks.deep_view(), clippy_flags@),
    {
        let ghost cs = checks.deep_view();
        let mut steps: Vec<String> = Vec::new();
        steps.push(owned(QG_CHECKOUT));
        steps.push(owned(QG_TOOLCHAIN));
        steps.push(owned(QG_CACHE));
        let ghost l0 = steps.deep_view();
        assert(l0 =~= seq![QG_CHECKOUT@, QG_TOOLCHAIN@, QG_CACHE@]);
        if any_contains_exec(checks, "Sweet") {
            let mut line = owned("      - name: Sweet Analysis\n        run: curl -L ");
            line = cat(line, SWEET_REPO);
            line = cat(line, "/releases/download/");
            line = cat(line, SWEET_DEFAULT_VERSION);
            line = cat(line, "/");
            line = cat(line, SWEET_BINARY);
            line = cat(line, " -o swt && chmod +x swt && ./swt");
            steps.push(line);
        }
        if any_contains_exec(checks, "Format") {
            steps.push(owned(QG_FORMAT));
        }
        if any_contains_exec(checks, "Clippy") {
            steps.push(cat(owned("      - name: Clippy\n        run: cargo clippy "), clippy_flags));
        }
        if any_contains_exec(checks, "Tests") {
            steps.push(owned(QG_TESTS));
        }
        assert(steps.deep_view() =~= quality_gate_lines(cs, clippy_flags@));
        let body = join(&steps, "\n");
        cat(cat(owned(QUALITY_GATE_HEAD), body.as_str()), "\n")
    }
}

/// The line, when its step is selected.
pub open spec fn step_if(selected: bool, line: Seq<char>) -> Seq<Seq<char>> {
    if selected {
        seq![line]
    } else {
        Seq::empty()
    }
}

/// The step lines of the quality gate differ from one another.
proof fn lemma_quality_gate_lines_distinct(flags: Seq<char>)
    ensures
        sweet_line() != QG_CHECKOUT@,
        sweet_line() != QG_TOOLCHAIN@,
        sweet_line() != QG_CACHE@,
        sweet_line() != QG_FORMAT@,
        sweet_line() != clippy_line(flags),
        sweet_line() != QG_TESTS@,
        QG_FORMAT@ != QG_CHECKOUT@,
        QG_FORMAT@ != QG_TOOLCHAIN@,
        QG_FORMAT@ != QG_CACHE@,
        QG_FORMAT@ != clippy_line(flags),
        QG_FORMAT@ != QG_TESTS@,
        clippy_line(flags) != QG_CHECKOUT@,
        clippy_line(flags) != QG_TOOLCHAIN@,
        clippy_line(flags) != QG_CACHE@,
        clippy_line(flags) != QG_TESTS@,
        QG_TESTS@ != QG_CHECKOUT@,
        QG_TESTS@ != QG_TOOLCHAIN@,
        QG_TESTS@ != QG_CACHE@,
{
    reveal_strlit("      - uses: actions/checkout@v6");
    reveal_strlit("      - uses: dtolnay/rust-toolchain@stable\n        with:\n          components: clippy, rustfmt");
    reveal_strlit("      - uses: Swatinem/rust-cache@v2");
    reveal_strlit("      - name: Check Format\n        run: cargo fmt --check");
    reveal_strlit("      - name: Run Tests\n        run: cargo test");
    reveal_strlit("      - name: Sweet Analysis\n        run: curl -L ");
    reveal_strlit("      - name: Clippy\n        run: cargo clippy ");
    let sw = sweet_line();
    let cl = clippy_line(flags);
    assert(sw[8] == 'n' && sw[14] == 'S');
    assert(cl[8] == 'n' && cl[14] == 'C' && cl[15] == 'l');
    assert(QG_FORMAT@[8] == 'n' && QG_FORMAT@[14] == 'C' && QG_FORMAT@[15] == 'h');
    assert(QG_TESTS@[8] == 'n' && QG_TESTS@[14] == 'R');
    assert(QG_CHECKOUT@[8] == 'u' && QG_TOOLCHAIN@[8] == 'u' && QG_CACHE@[8] == 'u');
}

/// The selected step's line stands in the quality gate text.
proof fn lemma_quality_gate_holds_line(checks: Seq<Seq<char>>, flags: Seq<char>, line: Seq<char>)
    requires
        quality_gate_lines(checks, flags).contains(line),
    ensures
        contains_seq(quality_gate_text(checks, flags), line),
{
    let lines = quality_gate_lines(checks, flags);
    let k = choose|k: int| 0 <= k < lines.len() && lines[k] == line;
    lemma_join_contains(lines, "\n"@, k);
    lemma_contains_within(QUALITY_GATE_HEAD@, join_with(lines, "\n"@), "\n"@, line);
}

/// The quality gate always begins with the checkout, toolchain and cache
/// steps, then holds exactly the selected steps, in the order Sweet,
/// Format, Clippy, Tests. A step is selected when some check mentions its
/// name, its line is among the steps exactly then, and the workflow text
/// then holds that line (the Clippy line with the given flags).
pub proof fn law_quality_gate_steps(checks: Seq<Seq<char>>, flags: Seq<char>)
    ensures
        quality_gate_lines(checks, flags) == seq![QG_CHECKOUT@, QG_TOOLCHAIN@, QG_CACHE@] + step_if(
            any_contains(checks, "Sweet"@),
            sweet_line(),
        ) + step_if(any_contains(checks, "Format"@), QG_FORMAT@) + step_if(
            any_contains(checks, "Clippy"@),
            clippy_line(flags),
        ) + step_if(any_contains(checks, "Tests"@), QG_TESTS@),
        quality_gate_lines(checks, flags).contains(sweet_line()) <==> any_contains(checks, "Sweet"@),
        quality_gate_lines(checks, flags).contains(QG_FORMAT@) <==> any_contains(checks, "Format"@),
        quality_gate_lines(checks, flags).contains(clippy_line(flags)) <==> any_contains(
            checks,
            "Clippy"@,
        ),
        quality_gate_lines(checks, flags).contains(QG_TESTS@) <==> any_contains(checks, "Tests"@),
        any_contains(checks, "Sweet"@) ==> contains_seq(
            quality_gate_text(checks, flags),
            "- name: Sweet Analysis"@,
        ),
        any_contains(checks, "Format"@) ==> contains_seq(
            quality_gate_text(checks, flags),
            "- name: Check Format"@,
        ),
        any_contains(checks, "Clippy"@) ==> contains_seq(
            quality_gate_text(checks, flags),
            clippy_line(flags),
        ),
        any_contains(checks, "Tests"@) ==> contains_seq(
            quality_gate_text(checks, flags),
            "- name: Run Tests"@,
        ),
{
    let lines = quality_gate_lines(checks, flags);
    let s = any_contains(checks, "Sweet"@);
    let f = any_contains(checks, "Format"@);
    let c = any_contains(checks, "Clippy"@);
    let t = any_contains(checks, "Tests"@);
    let expected = seq![QG_CHECKOUT@, QG_TOOLCHAIN@, QG_CACHE@] + step_if(s, sweet_line()) + step_if(
        f,
        QG_FORMAT@,
    ) + step_if(c, clippy_line(flags)) + step_if(t, QG_TESTS@);
    assert(lines =~= expected);
    lemma_quality_gate_lines_distinct(flags);
    if lines.contains(sweet_line()) {
        let k = choose|k: int| 0 <= k < lines.len() && lines[k] == sweet_line();
        assert(s);
    }
    if lines.contains(QG_FORMAT@) {
        let k = choose|k: int| 0 <= k < lines.len() && lines[k] == QG_FORMAT@;
        assert(f);
    }
    if lines.contains(clippy_line(flags)) {
        let k = choose|k: int| 0 <= k < lines.len() && lines[k] == clippy_line(flags);
        assert(c);
    }
    if lines.contains(QG_TESTS@) {
        let k = choose|k: int| 0 <= k < lines.len() && lines[k] == QG_TESTS@;
        assert(t);
    }
    reveal_strlit("      - name: Sweet Analysis\n        run: curl -L ");
    reveal_strlit("- name: Sweet Analysis");
    reveal_strlit("      - name: Check Format\n        run: cargo fmt --check");
    reveal_strlit("- name: Check Format");
    reveal_strlit("      - name: Run Tests\n        run: cargo test");
    reveal_strlit("- name: Run Tests");
    if s {
        assert(lines[3] == sweet_line());
        lemma_quality_gate_holds_line(checks, flags, sweet_line());
        assert(sweet_line().subrange(6, 28) =~= "- name: Sweet Analysis"@);
        assert(occurs_at(sweet_line(), "- name: Sweet Analysis"@, 6));
        lemma_contains_trans(quality_gate_text(checks, flags), sweet_line(), "- name: Sweet Analysis"@);
    }
    if f {
        assert(lines.contains(QG_FORMAT@)) by {
            assert(expected[3 + (if s { 1int } else { 0int })] == QG_FORMAT@);
        }
        lemma_quality_gate_holds_line(checks, flags, QG_FORMAT@);
        assert(QG_FORMAT@.subrange(6, 26) =~= "- name: Check Format"@);
        assert(occurs_at(QG_FORMAT@, "- name: Check Format"@, 6));
        lemma_contains_trans(quality_gate_text(checks, flags), QG_FORMAT@, "- name: Check Format"@);
    }
    if c {
        assert(lines.contains(clippy_line(flags))) by {
            assert(expected[3 + (if s { 1int } else { 0int }) + (if f { 1int } else { 0int })]
                == clippy_line(flags));
        }
        lemma_quality_gate_holds_line(checks, flags, clippy_line(flags));
    }
    if t {
        assert(lines.contains(QG_TESTS@)) by {
            assert(expected[expected.len() - 1] == QG_TESTS@);
        }
        lemma_quality_gate_holds_line(checks, flags, QG_TESTS@);
        assert(QG_TESTS@.subrange(6, 23) =~= "- name: Run Tests"@);
        assert(occurs_at(QG_TESTS@, "- name: Run Tests"@, 6));
        lemma_contains_trans(quality_gate_text(checks, flags), QG_TESTS@, "- name: Run Tests"@);
    }
}

/// Two lists of checks holding the same entries mention the same names.
proof fn lemma_any_contains_same_entries(a: Seq<Seq<char>>, b: Seq<Seq<char>>, p: Seq<char>)
    requires
        forall|x: Seq<char>| a.contains(x) <==> b.contains(x),
    ensures
        any_contains(a, p) == any_contains(b, p),
{
    if any_contains(a, p) {
        let i = choose|i: int| 0 <= i < a.len() && contains_seq(#[trigger] a[i], p);
        assert(a.contains(a[i]));
        let j = choose|j: int| 0 <= j < b.len() && b[j] == a[i];
        assert(contains_seq(b[j], p));
    }
    if any_contains(b, p) {
        let i = choose|i: int| 0 <= i < b.len() && contains_seq(#[trigger] b[i], p);
        assert(b.contains(b[i]));
        let j = choose|j: int| 0 <= j < a.len() && a[j] == b[i];
        assert(contains_seq(a[j], p));
    }
}

/// The quality gate depends only on which checks are given, not on their
/// order or repetition: two lists holding the same entries give the same
/// workflow.
pub proof fn law_quality_gate_ignores_order(a: Seq<Seq<char>>, b: Seq<Seq<char>>, flags: Seq<char>)
    requires
        forall|x: Seq<char>| a.contains(x) <==> b.contains(x),
    ensures
        quality_gate_text(a, flags) == quality_gate_text(b, flags),
{
    lemma_any_contains_same_entries(a, b, "Sweet"@);
    lemma_any_contains_same_entries(a, b, "Format"@);
    lemma_any_contains_same_entries(a, b, "Clippy"@);
    lemma_any_contains_same_entries(a, b, "Tests"@);
    assert(quality_gate_lines(a, flags) =~= quality_gate_lines(b, flags));
}

/// The pipeline is named "Refinery Pipeline" and runs on version tags. It
/// has a header job exactly when some library wants C headers; the build
/// job then waits for it and downloads the headers right after checkout,
/// and is otherwise the matrix job itself. The release job waits for the
/// build.
pub proof fn law_pipeline_shape(c: ConfigModel)
    ensures
        primary_workflow_model(c).name == "Refinery Pipeline"@,
        primary_workflow_model(c).on == tag_push_events(),
        primary_workflow_model(c).jobs.prepare is Some <==> any_headers(c),
        any_headers(c) ==> primary_workflow_model(c).jobs.build.needs == Some(seq!["prepare"@])
            && primary_workflow_model(c).jobs.build.steps.len() == matrix_job(c).steps.len() + 1
            && primary_workflow_model(c).jobs.build.steps[0] == matrix_job(c).steps[0]
            && primary_workflow_model(c).jobs.build.steps[1] == download_step_model("headers"@, "."@),
        !any_headers(c) ==> primary_workflow_model(c).jobs.build == matrix_job(c),
        primary_workflow_model(c).jobs.release.needs == Some(seq!["build"@]),
{
    self::jobs::law_matrix_job_shape(c);
}

} // verus!
