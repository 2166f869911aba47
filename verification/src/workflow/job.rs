//! Workflow jobs.

use crate::common::expr::{BoE, LoE};
use crate::common::{scalar_or_vector, scalar_or_vector_decoded, Env, If, Permissions, Uses};
use crate::decode::{outcome, Decode, DecodeError, Failure, Shape};
use crate::value::{entry, Tree, Value};
use crate::workflow::{Concurrency, Defaults};
use indexmap::IndexMap;
use vstd::prelude::*;

verus! {

/// A "normal" GitHub Actions workflow job, i.e. a job composed of one
/// or more steps on a runner.
pub struct NormalJob {
    pub name: Option<String>,
    pub permissions: Permissions,
    pub needs: Vec<String>,
    pub if_: Option<If>,
    pub runs_on: LoE<RunsOn>,
    pub environment: Option<DeploymentEnvironment>,
    pub concurrency: Option<Concurrency>,
    pub outputs: IndexMap<String, String>,
    pub env: LoE<Env>,
    pub defaults: Option<Defaults>,
    pub steps: Vec<Step>,
    pub timeout_minutes: Option<LoE<u64>>,
    pub strategy: Option<Strategy>,
    pub continue_on_error: BoE,
    pub container: Option<Container>,
    pub services: IndexMap<String, Container>,
}

/// Where a job runs: on a runner picked by labels, or on one of a group.
#[derive(Debug, PartialEq)]
pub enum RunsOn {
    /// The labels of the runner.
    Target(Vec<String>),
    /// A runner group, with labels to pick a runner of it.
    Group { group: Option<String>, labels: Vec<String> },
}

/// What a [`RunsOn`] holds.
pub enum RunsOnView {
    Target(Seq<Seq<char>>),
    Group { group: Option<Seq<char>>, labels: Seq<Seq<char>> },
}

impl DeepView for RunsOn {
    type V = RunsOnView;

    open spec fn deep_view(&self) -> RunsOnView {
        match self {
            RunsOn::Target(labels) => RunsOnView::Target(labels.deep_view()),
            RunsOn::Group { group, labels } => RunsOnView::Group {
                group: group.deep_view(),
                labels: labels.deep_view(),
            },
        }
    }
}

impl RunsOnView {
    /// A group must name a group or at least one label; targets are held to
    /// nothing.
    pub open spec fn is_valid(self) -> bool {
        match self {
            RunsOnView::Target(_) => true,
            RunsOnView::Group { group, labels } => group.is_some() || labels.len() > 0,
        }
    }

    /// The value itself where it is valid, and what is wrong with it where it
    /// is not.
    pub open spec fn checked(self) -> Result<RunsOnView, Failure> {
        if self.is_valid() {
            Ok(self)
        } else {
            Err(Failure::EmptyRunsOn)
        }
    }
}

/// What a mapping decodes to as a runner group. The group is what stands
/// under `group`, or none where the key is missing or null. The labels are
/// what stands under `labels`, one or a list, or none where the key is
/// missing.
pub open spec fn group_decoded(tree: Tree) -> Result<RunsOnView, Failure> {
    match tree {
        Tree::Mapping(entries) => {
            let group = match entry(entries, "group"@) {
                Some(t) => Option::<String>::decoded(t),
                None => Ok(None),
            };
            let labels = match entry(entries, "labels"@) {
                Some(t) => scalar_or_vector_decoded::<String>(t),
                None => Ok(Seq::empty()),
            };
            match (group, labels) {
                (Ok(group), Ok(labels)) => Ok(RunsOnView::Group { group, labels }),
                (Err(e), _) => Err(e),
                (_, Err(e)) => Err(e),
            }
        },
        _ => Err(Failure::Expected(Shape::Mapping)),
    }
}

/// What a tree decodes to before the value is checked. The labels of a
/// target, one or a list, are tried first, then the group; a tree that is
/// neither does not decode.
pub open spec fn shape_decoded(tree: Tree) -> Result<RunsOnView, Failure> {
    match scalar_or_vector_decoded::<String>(tree) {
        Ok(labels) => Ok(RunsOnView::Target(labels)),
        Err(_) => match group_decoded(tree) {
            Ok(group) => Ok(group),
            Err(_) => Err(Failure::ExpectedEither(Shape::Target, Shape::Group)),
        },
    }
}

/// A group is refused exactly where it names no group and no label, and for
/// that reason; every other value passes unchanged. So what decodes is
/// always valid.
pub proof fn lemma_runs_on(runs_on: RunsOnView, tree: Tree)
    ensures
        runs_on.checked() == if runs_on matches RunsOnView::Group { group: None, labels }
            && labels.len() == 0 {
            Err::<RunsOnView, Failure>(Failure::EmptyRunsOn)
        } else {
            Ok(runs_on)
        },
        RunsOn::decoded(tree) matches Ok(decoded) ==> decoded.is_valid(),
{
}

impl RunsOn {
    /// Holds the value to what no single field can say: a group that names
    /// neither a group nor a label is refused.
    pub fn checked(self) -> (r: Result<Self, DecodeError>)
        ensures
            outcome(r) == self.deep_view().checked(),
    {
        match self {
            RunsOn::Target(labels) => Ok(RunsOn::Target(labels)),
            RunsOn::Group { group, labels } => {
                if group.is_none() && labels.len() == 0 {
                    Err(DecodeError::EmptyRunsOn)
                } else {
                    Ok(RunsOn::Group { group, labels })
                }
            },
        }
    }

    /// Decodes a mapping as a runner group.
    fn decode_group(value: &Value) -> (r: Result<Self, DecodeError>)
        ensures
            outcome(r) == group_decoded(value@),
    {
        match value {
            Value::Mapping(_) => {
                let group = match value.get("group") {
                    Some(v) => Option::<String>::decode(v),
                    None => Ok(None),
                };
                let labels = match value.get("labels") {
                    Some(v) => scalar_or_vector::<String>(v),
                    None => {
                        let none: Vec<String> = Vec::new();
                        assert(none.deep_view() =~= Seq::<Seq<char>>::empty());
                        Ok(none)
                    },
                };
                match (group, labels) {
                    (Ok(group), Ok(labels)) => Ok(RunsOn::Group { group, labels }),
                    (Err(e), _) => Err(e),
                    (_, Err(e)) => Err(e),
                }
            },
            _ => Err(DecodeError::Expected(Shape::Mapping)),
        }
    }

    /// Decodes a value by its shape alone, without the check on the whole.
    fn decode_shape(value: &Value) -> (r: Result<Self, DecodeError>)
        ensures
            outcome(r) == shape_decoded(value@),
    {
        match scalar_or_vector::<String>(value) {
            Ok(labels) => Ok(RunsOn::Target(labels)),
            Err(_) => match Self::decode_group(value) {
                Ok(group) => Ok(group),
                Err(_) => Err(DecodeError::ExpectedEither(Shape::Target, Shape::Group)),
            },
        }
    }
}

impl Decode for RunsOn {
    /// The value by its shape, then checked as a whole.
    open spec fn decoded(tree: Tree) -> Result<RunsOnView, Failure> {
        match shape_decoded(tree) {
            Ok(runs_on) => runs_on.checked(),
            Err(e) => Err(e),
        }
    }

    fn decode(value: &Value) -> (r: Result<Self, DecodeError>) {
        match Self::decode_shape(value) {
            Ok(runs_on) => runs_on.checked(),
            Err(e) => Err(e),
        }
    }
}

/// The environment that a job deploys to.
pub enum DeploymentEnvironment {
    Name(String),
    NameURL { name: String, url: Option<String> },
}

/// A step of a job.
pub struct Step {
    /// An optional ID for this step.
    pub id: Option<String>,
    /// An optional expression that prevents this step from running unless it evaluates to `true`.
    pub if_: Option<If>,
    /// An optional name for this step.
    pub name: Option<String>,
    /// An optional timeout for this step, in minutes.
    pub timeout_minutes: Option<LoE<u64>>,
    /// An optional boolean or expression that, if `true`, prevents the job from failing when
    /// this step fails.
    pub continue_on_error: BoE,
    /// The `run:` or `uses:` body for this step.
    pub body: StepBody,
}

/// What a step does.
pub enum StepBody {
    Uses {
        /// The GitHub Action being used.
        uses: Uses,
        /// Any inputs to the action being used.
        with: Env,
    },
    Run {
        /// The command to run.
        run: String,
        /// An optional working directory to run [`StepBody::Run::run`] from.
        working_directory: Option<String>,
        /// An optional shell to run in. Defaults to the job or workflow's
        /// default shell.
        shell: Option<String>,
        /// An optional environment mapping for this step.
        env: LoE<Env>,
    },
}

/// How the runs of a job are multiplied.
pub struct Strategy {
    pub matrix: Option<LoE<Matrix>>,
    pub fail_fast: Option<BoE>,
    pub max_parallel: Option<LoE<u64>>,
}

/// The matrix of a strategy.
pub struct Matrix {
    pub include_: LoE<Vec<IndexMap<String, Value>>>,
    pub exclude: LoE<Vec<IndexMap<String, Value>>>,
    pub dimensions: LoE<IndexMap<String, LoE<Vec<Value>>>>,
}

/// The container that a job or a service runs in.
pub enum Container {
    Name(String),
    Container {
        image: String,
        credentials: Option<DockerCredentials>,
        env: LoE<Env>,
        volumes: Vec<String>,
        options: Option<String>,
    },
}

/// The credentials for a container registry.
pub struct DockerCredentials {
    pub username: Option<String>,
    pub password: Option<String>,
}

/// A job that calls a reusable workflow.
pub struct ReusableWorkflowCallJob {
    pub name: Option<String>,
    pub permissions: Permissions,
    pub needs: Vec<String>,
    pub if_: Option<If>,
    pub uses: Uses,
    pub with: Env,
    pub secrets: Option<Secrets>,
}

/// The secrets handed to a reusable workflow.
#[derive(Debug, PartialEq)]
pub enum Secrets {
    Inherit,
    Env(Env),
}

} // verus!
