//! Data models for GitHub Actions workflow definitions.
//!
//! Resources:
//! * [Workflow syntax for GitHub Actions]
//! * [JSON Schema definition for workflows]
//!
//! [Workflow Syntax for GitHub Actions]: https://docs.github.com/en/actions/using-workflows/workflow-syntax-for-github-actions>
//! [JSON Schema definition for workflows]: https://json.schemastore.org/github-workflow.json

use crate::common::expr::{BoE, LoE};
use crate::common::{Env, Permissions};
use indexmap::IndexMap;
use vstd::prelude::*;

pub mod event;
pub mod job;

verus! {

/// A single GitHub Actions workflow.
pub struct Workflow {
    pub name: Option<String>,
    pub run_name: Option<String>,
    pub on: Trigger,
    pub permissions: Permissions,
    pub env: LoE<Env>,
    pub defaults: Option<Defaults>,
    pub concurrency: Option<Concurrency>,
    pub jobs: IndexMap<String, Job>,
}

/// The triggering condition or conditions for a workflow.
///
/// Workflow triggers take three forms:
///
/// 1. A single webhook event name:
///
///     ```yaml
///     on: push
///     ```
/// 2. A list of webhook event names:
///
///     ```yaml
///     on: [push, fork]
///     ```
///
/// 3. A mapping of event names with (optional) configurations:
///
///     ```yaml
///     on:
///       push:
///         branches: [main]
///       pull_request:
///     ```
pub enum Trigger {
    BareEvent(event::BareEvent),
    BareEvents(Vec<event::BareEvent>),
    Events(Box<event::Events>),
}

/// The defaults of a workflow or a job.
pub struct Defaults {
    pub run: Option<RunDefaults>,
}

/// The defaults for `run:` steps.
pub struct RunDefaults {
    pub shell: Option<String>,
    pub working_directory: Option<String>,
}

/// The concurrency group of a workflow or a job.
pub enum Concurrency {
    Bare(String),
    Rich { group: String, cancel_in_progress: BoE },
}

/// A job of a workflow.
pub enum Job {
    NormalJob(Box<job::NormalJob>),
    ReusableWorkflowCallJob(Box<job::ReusableWorkflowCallJob>),
}

impl Job {
    /// The name that the job holds, whichever kind of job it is.
    pub open spec fn name_text(self) -> Option<Seq<char>> {
        match self {
            Job::NormalJob(job) => match job.name {
                Some(name) => Some(name@),
                None => None,
            },
            Job::ReusableWorkflowCallJob(job) => match job.name {
                Some(name) => Some(name@),
                None => None,
            },
        }
    }

    /// Returns the optional `name` field common to both reusable and normal
    /// job definitions.
    pub fn name(&self) -> (r: Option<&str>)
        ensures
            match r {
                Some(name) => self.name_text() == Some(name@),
                None => self.name_text().is_none(),
            },
    {
        match self {
            Job::NormalJob(job) => match &job.name {
                Some(name) => Some(name.as_str()),
                None => None,
            },
            Job::ReusableWorkflowCallJob(job) => match &job.name {
                Some(name) => Some(name.as_str()),
                None => None,
            },
        }
    }
}

} // verus!
