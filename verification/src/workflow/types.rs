//! The structure of a GitHub Actions workflow document.
//!
//! Mappings (`with`, `env`, matrix entries, permissions) are kept as ordered
//! lists of key/value pairs, in the order in which they were set.
use vstd::prelude::*;

verus! {

/// An ordered string mapping.
pub type StrPairs = Vec<(String, String)>;

/// Abstract value of a [`StrPairs`] mapping.
pub type PairsModel = Seq<(Seq<char>, Seq<char>)>;

/// The jobs of the pipeline.
pub struct WorkflowJobs {
    pub prepare: Option<Job>,
    pub build: Job,
    pub release: Job,
}

/// Events that trigger a workflow.
pub struct WorkflowEvents {
    pub push: Option<PushEvent>,
    pub pull_request: Option<PullRequestEvent>,
    pub release: Option<ReleaseEvent>,
    /// Whether the workflow can be dispatched by hand.
    pub workflow_dispatch: bool,
}

/// A `push` trigger.
pub struct PushEvent {
    pub branches: Option<Vec<String>>,
    pub tags: Option<Vec<String>>,
}

/// A `pull_request` trigger.
pub struct PullRequestEvent {
    pub branches: Option<Vec<String>>,
}

/// A `release` trigger.
pub struct ReleaseEvent {
    pub types: Vec<String>,
}

/// One job of a workflow.
pub struct Job {
    pub name: String,
    pub runs_on: String,
    pub needs: Option<Vec<String>>,
    pub condition: Option<String>,
    pub strategy: Option<Strategy>,
    pub steps: Vec<Step>,
}

/// A job's build strategy.
pub struct Strategy {
    pub fail_fast: bool,
    pub matrix: Matrix,
}

/// A build matrix given by explicit entries.
pub struct Matrix {
    pub entries: Option<Vec<StrPairs>>,
}

/// One step of a job.
pub struct Step {
    pub name: Option<String>,
    pub uses: Option<String>,
    pub run: Option<String>,
    pub with: Option<StrPairs>,
    pub env: Option<StrPairs>,
    pub condition: Option<String>,
    pub shell: Option<String>,
}

/// Abstract value of a [`Step`].
pub struct StepModel {
    pub name: Option<Seq<char>>,
    pub uses: Option<Seq<char>>,
    pub run: Option<Seq<char>>,
    pub with: Option<PairsModel>,
    pub env: Option<PairsModel>,
    pub condition: Option<Seq<char>>,
    pub shell: Option<Seq<char>>,
}

/// Abstract value of a [`Strategy`].
pub struct StrategyModel {
    pub fail_fast: bool,
    pub entries: Option<Seq<PairsModel>>,
}

/// Abstract value of a [`Job`].
pub struct JobModel {
    pub name: Seq<char>,
    pub runs_on: Seq<char>,
    pub needs: Option<Seq<Seq<char>>>,
    pub condition: Option<Seq<char>>,
    pub strategy: Option<StrategyModel>,
    pub steps: Seq<StepModel>,
}

/// Abstract value of a [`PushEvent`].
pub struct PushModel {
    pub branches: Option<Seq<Seq<char>>>,
    pub tags: Option<Seq<Seq<char>>>,
}

/// Abstract value of [`WorkflowEvents`].
pub struct EventsModel {
    pub push: Option<PushModel>,
    pub pull_request: Option<Option<Seq<Seq<char>>>>,
    pub release: Option<Seq<Seq<char>>>,
    pub workflow_dispatch: bool,
}

/// Abstract value of [`WorkflowJobs`].
pub struct JobsModel {
    pub prepare: Option<JobModel>,
    pub build: JobModel,
    pub release: JobModel,
}

impl View for Step {
    type V = StepModel;

    open spec fn view(&self) -> StepModel {
        StepModel {
            name: self.name.deep_view(),
            uses: self.uses.deep_view(),
            run: self.run.deep_view(),
            with: self.with.deep_view(),
            env: self.env.deep_view(),
            condition: self.condition.deep_view(),
            shell: self.shell.deep_view(),
        }
    }
}

impl DeepView for Step {
    type V = StepModel;

    open spec fn deep_view(&self) -> StepModel {
        self@
    }
}

impl View for Strategy {
    type V = StrategyModel;

    open spec fn view(&self) -> StrategyModel {
        StrategyModel { fail_fast: self.fail_fast, entries: self.matrix.entries.deep_view() }
    }
}

impl DeepView for Strategy {
    type V = StrategyModel;

    open spec fn deep_view(&self) -> StrategyModel {
        self@
    }
}

impl View for Job {
    type V = JobModel;

    open spec fn view(&self) -> JobModel {
        JobModel {
            name: self.name@,
            runs_on: self.runs_on@,
            needs: self.needs.deep_view(),
            condition: self.condition.deep_view(),
            strategy: self.strategy.deep_view(),
            steps: self.steps.deep_view(),
        }
    }
}

impl DeepView for Job {
    type V = JobModel;

    open spec fn deep_view(&self) -> JobModel {
        self@
    }
}

impl View for PushEvent {
    type V = PushModel;

    open spec fn view(&self) -> PushModel {
        PushModel { branches: self.branches.deep_view(), tags: self.tags.deep_view() }
    }
}

impl DeepView for PushEvent {
    type V = PushModel;

    open spec fn deep_view(&self) -> PushModel {
        self@
    }
}

impl View for WorkflowEvents {
    type V = EventsModel;

    open spec fn view(&self) -> EventsModel {
        EventsModel {
            push: self.push.deep_view(),
            pull_request: match self.pull_request {
                Some(p) => Some(p.branches.deep_view()),
                None => None,
            },
            release: match self.release {
                Some(r) => Some(r.types.deep_view()),
                None => None,
            },
            workflow_dispatch: self.workflow_dispatch,
        }
    }
}

impl View for WorkflowJobs {
    type V = JobsModel;

    open spec fn view(&self) -> JobsModel {
        JobsModel { prepare: self.prepare.deep_view(), build: self.build@, release: self.release@ }
    }
}

/// A step with every field unset.
pub open spec fn empty_step() -> StepModel {
    StepModel {
        name: None,
        uses: None,
        run: None,
        with: None,
        env: None,
        condition: None,
        shell: None,
    }
}

/// A job with every field unset or empty.
pub open spec fn empty_job() -> JobModel {
    JobModel {
        name: Seq::empty(),
        runs_on: Seq::empty(),
        needs: None,
        condition: None,
        strategy: None,
        steps: Seq::empty(),
    }
}

impl Default for Step {
    fn default() -> (r: Self)
        ensures
            r@ == empty_step(),
    {
        Step { name: None, uses: None, run: None, with: None, env: None, condition: None, shell: None }
    }
}

impl Default for Job {
    fn default() -> (r: Self)
        ensures
            r@ == empty_job(),
    {
        let r = Job {
            name: String::new(),
            runs_on: String::new(),
            needs: None,
            condition: None,
            strategy: None,
            steps: Vec::new(),
        };
        assert(r.steps.deep_view() =~= Seq::<StepModel>::empty());
        r
    }
}

impl Default for WorkflowEvents {
    fn default() -> (r: Self)
        ensures
            r.push is None,
            r.pull_request is None,
            r.release is None,
            !r.workflow_dispatch,
    {
        WorkflowEvents { push: None, pull_request: None, release: None, workflow_dispatch: false }
    }
}

} // verus!
