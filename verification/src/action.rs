//! Data models for GitHub Actions action definitions.
//!
//! Resources:
//! * [Metadata syntax for GitHub Actions]
//! * [JSON Schema definition for GitHub Actions]
//!
//! [Metadata syntax for GitHub Actions]: https://docs.github.com/en/actions/creating-actions/metadata-syntax-for-github-actions
//! [JSON Schema definition for GitHub Actions]: https://json.schemastore.org/github-action.json

use crate::common::expr::{BoE, LoE};
use crate::common::{Env, If};
use indexmap::IndexMap;
use vstd::prelude::*;

verus! {

/// A GitHub Actions action definition.
pub struct Action {
    pub name: String,
    pub author: Option<String>,
    pub description: Option<String>,
    pub inputs: IndexMap<String, Input>,
    pub outputs: IndexMap<String, Output>,
    pub runs: Runs,
}

/// An action input.
pub struct Input {
    pub description: String,
    pub required: Option<bool>,
    pub default: Option<String>,
}

/// An action output.
pub struct Output {
    pub description: String,
    /// Not optional for composite actions.
    pub value: Option<String>,
}

/// An action `runs` definition.
///
/// A `runs` definition can be either a JavaScript action, a "composite" action
/// (made up of several constituent actions), or a Docker action.
pub enum Runs {
    JavaScript(JavaScript),
    Composite(Composite),
    Docker(Docker),
}

/// A `runs` definition for a JavaScript action.
pub struct JavaScript {
    /// The Node runtime to use for this action. This is one of:
    ///
    /// `"node12" | "node16" | "node20"`
    pub using: String,
    /// The action's entrypoint, as a JavaScript file.
    pub main: String,
    /// An optional script to run, before [`JavaScript::main`].
    pub pre: Option<String>,
    /// An optional expression that triggers [`JavaScript::pre`] if it evaluates to `true`.
    ///
    /// If not present, defaults to `always()`
    pub pre_if: Option<If>,
    /// An optional script to run, after [`JavaScript::main`].
    pub post: Option<String>,
    /// An optional expression that triggers [`JavaScript::post`] if it evaluates to `true`.
    ///
    /// If not present, defaults to `always()`
    pub post_if: Option<If>,
}

/// A `runs` definition for a composite action.
pub struct Composite {
    /// Invariant: `"composite"`
    pub using: String,
    /// The individual steps that make up this composite action.
    pub steps: Vec<Step>,
}

/// An individual composite action step.
///
/// This is similar, but not identical to [`crate::workflow::job::Step`].
pub struct Step {
    /// An optional ID for this composite step.
    pub id: Option<String>,
    /// An optional expression that prevents this composite step from running unless it
    /// evaluates to `true`.
    pub if_: Option<If>,
    /// An optional name for this composite step.
    pub name: Option<String>,
    /// An optional boolean or expression that, if `true`, prevents the job from failing when
    /// this composite step fails.
    pub continue_on_error: BoE,
    /// The `run:` or `uses:` body for this composite step.
    pub body: StepBody,
}

/// The body of a composite action step.
pub enum StepBody {
    /// A step that uses another GitHub Action.
    Uses {
        /// The GitHub Action being used.
        uses: String,
        /// Any inputs to the action being used.
        with: Env,
    },
    /// A step that runs a command in a shell.
    Run {
        /// The command to run.
        run: String,
        /// The shell to run in.
        shell: String,
        /// An optional environment mapping for this step.
        env: LoE<Env>,
        /// An optional working directory to run the command from.
        working_directory: Option<String>,
    },
}

/// A `runs` definition for a Docker action.
pub struct Docker {
    /// Invariant: `"docker"`
    pub using: String,
    /// The Docker image to use.
    pub image: String,
    /// An optional environment mapping for this step.
    pub env: Env,
    /// An optional Docker entrypoint, potentially overriding the image's
    /// default entrypoint.
    pub entrypoint: Option<String>,
    /// An optional "pre" entrypoint to run, before [`Docker::entrypoint`].
    pub pre_entrypoint: Option<String>,
    /// An optional expression that triggers [`Docker::pre_entrypoint`] if it evaluates to `true`.
    ///
    /// If not present, defaults to `always()`
    pub pre_if: Option<If>,
    /// An optional "post" entrypoint to run, after [`Docker::entrypoint`] or the default
    /// entrypoint.
    pub post_entrypoint: Option<String>,
    /// An optional expression that triggers [`Docker::post_entrypoint`] if it evaluates to `true`.
    ///
    /// If not present, defaults to `always()`
    pub post_if: Option<If>,
}

} // verus!
