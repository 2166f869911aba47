//! Workflow events.

use crate::common::EnvValue;
use crate::decode::{outcome, Decode, DecodeError, Failure, Shape};
use crate::value::{entry, Tree, Value};
use indexmap::IndexMap;
use vstd::prelude::*;
use vstd::std_specs::convert::FromSpecImpl;

verus! {

/// "Bare" workflow event triggers.
///
/// These appear when a workflow is triggered with an event with no context,
/// e.g.:
///
/// ```yaml
/// on: push
/// ```
#[derive(Debug, PartialEq, Eq, Hash)]
pub enum BareEvent {
    BranchProtectionRule,
    CheckRun,
    CheckSuite,
    Create,
    Delete,
    Deployment,
    DeploymentStatus,
    Discussion,
    DiscussionComment,
    Fork,
    Gollum,
    IssueComment,
    Issues,
    Label,
    MergeGroup,
    Milestone,
    PageBuild,
    Project,
    ProjectCard,
    ProjectColumn,
    Public,
    PullRequest,
    PullRequestComment,
    PullRequestReview,
    PullRequestReviewComment,
    PullRequestTarget,
    Push,
    RegistryPackage,
    Release,
    RepositoryDispatch,
    // `schedule` is omitted, since it's never bare.
    Status,
    Watch,
    WorkflowCall,
    WorkflowDispatch,
    WorkflowRun,
}

/// A container that tells apart a missing key, a key with nothing after it,
/// and a key with a value of type `T`.
///
/// `on:` triggers need this: no key means no trigger, and a key without a
/// body (e.g. `pull_request:`) means "trigger with the defaults for this
/// event type."
#[derive(Debug)]
pub enum OptionalBody<T> {
    /// The key is there, with nothing after it.
    Default,
    /// The key is not there.
    Missing,
    /// The key is there, with a body.
    Body(T),
}

/// What an [`OptionalBody`] holds.
pub enum OptionalBodyView<V> {
    Default,
    Missing,
    Body(V),
}

impl<T: DeepView> DeepView for OptionalBody<T> {
    type V = OptionalBodyView<T::V>;

    open spec fn deep_view(&self) -> OptionalBodyView<T::V> {
        match self {
            OptionalBody::Default => OptionalBodyView::Default,
            OptionalBody::Missing => OptionalBodyView::Missing,
            OptionalBody::Body(body) => OptionalBodyView::Body(body.deep_view()),
        }
    }
}

impl<T> Default for OptionalBody<T> {
    /// A key that nothing was said of is missing.
    fn default() -> (r: Self)
        ensures
            r is Missing,
    {
        OptionalBody::Missing
    }
}

impl<T> From<Option<T>> for OptionalBody<T> {
    fn from(value: Option<T>) -> (r: Self) {
        match value {
            Some(v) => OptionalBody::Body(v),
            None => OptionalBody::Default,
        }
    }
}

impl<T> FromSpecImpl<Option<T>> for OptionalBody<T> {
    open spec fn obeys_from_spec() -> bool {
        true
    }

    /// A key that is there has its body, or the default where it has none.
    open spec fn from_spec(value: Option<T>) -> Self {
        match value {
            Some(v) => OptionalBody::Body(v),
            None => OptionalBody::Default,
        }
    }
}

impl<T: Decode> Decode for OptionalBody<T> {
    /// What stands after a key that is there: nothing, which is the default,
    /// or a body.
    open spec fn decoded(tree: Tree) -> Result<OptionalBodyView<T::V>, Failure> {
        match Option::<T>::decoded(tree) {
            Ok(Some(body)) => Ok(OptionalBodyView::Body(body)),
            Ok(None) => Ok(OptionalBodyView::Default),
            Err(e) => Err(e),
        }
    }

    fn decode(value: &Value) -> (r: Result<Self, DecodeError>) {
        match Option::<T>::decode(value) {
            Ok(body) => Ok(OptionalBody::from(body)),
            Err(e) => Err(e),
        }
    }
}

/// What the key `key` of the mapping `tree` decodes to: missing where the
/// mapping has no such key, else what stands after the key. A failure to
/// decode what stands after the key names the key.
pub open spec fn decoded_at<T: Decode>(tree: Tree, key: Seq<char>) -> Result<
    OptionalBodyView<T::V>,
    Failure,
> {
    match tree {
        Tree::Mapping(entries) => match entry(entries, key) {
            Some(body) => match OptionalBody::<T>::decoded(body) {
                Ok(body) => Ok(body),
                Err(e) => Err(Failure::Field(key, Box::new(e))),
            },
            None => Ok(OptionalBodyView::Missing),
        },
        _ => Err(Failure::Expected(Shape::Mapping)),
    }
}

/// The three states of a key. A key that the mapping does not have is
/// missing; a key with null after it has the default; a key with anything
/// else after it has the body that this decodes to.
pub proof fn lemma_key_states<T: Decode>(entries: Seq<(Tree, Tree)>, key: Seq<char>)
    ensures
        entry(entries, key).is_none() ==> decoded_at::<T>(Tree::Mapping(entries), key) == Ok::<
            OptionalBodyView<T::V>,
            Failure,
        >(OptionalBodyView::Missing),
        entry(entries, key) == Some(Tree::Null) ==> decoded_at::<T>(Tree::Mapping(entries), key)
            == Ok::<OptionalBodyView<T::V>, Failure>(OptionalBodyView::Default),
        entry(entries, key) matches Some(body) && body != Tree::Null ==> decoded_at::<T>(
            Tree::Mapping(entries),
            key,
        ) == match T::decoded(entry(entries, key).unwrap()) {
            Ok(v) => Ok::<OptionalBodyView<T::V>, Failure>(OptionalBodyView::Body(v)),
            Err(e) => Err(Failure::Field(key, Box::new(e))),
        },
{
}

impl<T> OptionalBody<T> {
    /// Whether the key is there, with or without a body.
    pub open spec fn is_present(self) -> bool {
        !(self is Missing)
    }

    /// Whether the key is there, with or without a body.
    pub fn present(&self) -> (r: bool)
        ensures
            r == self.is_present(),
    {
        match self {
            OptionalBody::Missing => false,
            _ => true,
        }
    }
}

impl<T: Decode> OptionalBody<T> {
    /// Decodes the key `key` of a mapping.
    pub fn decode_at(mapping: &Value, key: &str) -> (r: Result<Self, DecodeError>)
        ensures
            outcome(r) == decoded_at::<T>(mapping@, key@),
    {
        match mapping {
            Value::Mapping(_) => match mapping.get(key) {
                Some(body) => match Self::decode(body) {
                    Ok(body) => Ok(body),
                    Err(e) => Err(e.at(key)),
                },
                None => Ok(OptionalBody::Missing),
            },
            _ => Err(DecodeError::Expected(Shape::Mapping)),
        }
    }
}

/// Workflow event triggers, with bodies.
///
/// Like [`BareEvent`], but with per-event properties.
#[derive(Debug)]
pub struct Events {
    pub branch_protection_rule: OptionalBody<GenericEvent>,
    pub check_run: OptionalBody<GenericEvent>,
    pub check_suite: OptionalBody<GenericEvent>,
    // `create` and `delete` are omitted, since they are always bare.
    // `deployment` and `deployment_status` are omitted, since they are always bare.
    pub discussion: OptionalBody<GenericEvent>,
    pub discussion_comment: OptionalBody<GenericEvent>,
    // `fork` and `gollum` are omitted, since they are always bare.
    pub issue_comment: OptionalBody<GenericEvent>,
    pub issues: OptionalBody<GenericEvent>,
    pub label: OptionalBody<GenericEvent>,
    pub merge_group: OptionalBody<GenericEvent>,
    pub milestone: OptionalBody<GenericEvent>,
    // `page_build` is omitted, since it is always bare.
    pub project: OptionalBody<GenericEvent>,
    pub project_card: OptionalBody<GenericEvent>,
    pub project_column: OptionalBody<GenericEvent>,
    // `public` is omitted, since it is always bare.
    pub pull_request: OptionalBody<PullRequest>,
    pub pull_request_comment: OptionalBody<GenericEvent>,
    pub pull_request_review: OptionalBody<GenericEvent>,
    pub pull_request_review_comment: OptionalBody<GenericEvent>,
    // `pull_request_target` has the same trigger filters as `pull_request`.
    pub pull_request_target: OptionalBody<PullRequest>,
    pub push: OptionalBody<Push>,
    pub registry_package: OptionalBody<GenericEvent>,
    pub release: OptionalBody<GenericEvent>,
    pub repository_dispatch: OptionalBody<GenericEvent>,
    pub schedule: OptionalBody<Vec<Cron>>,
    // `status` is omitted, since it is always bare.
    pub watch: OptionalBody<GenericEvent>,
    pub workflow_call: OptionalBody<WorkflowCall>,
    pub workflow_dispatch: OptionalBody<WorkflowDispatch>,
    pub workflow_run: OptionalBody<WorkflowRun>,
}

/// One for a key that is there, nothing for one that is missing.
pub open spec fn tally<T>(body: OptionalBody<T>) -> nat {
    if body.is_present() {
        1
    } else {
        0
    }
}

/// `count` and one more where the key is there.
fn add_present<T>(count: u32, body: &OptionalBody<T>) -> (r: u32)
    requires
        count < u32::MAX,
    ensures
        r == count + tally(*body),
{
    if body.present() {
        count + 1
    } else {
        count
    }
}

impl Default for Events {
    /// The events of a mapping without keys: every trigger is missing.
    fn default() -> (r: Self)
        ensures
            r.present() == 0,
    {
        Events {
            branch_protection_rule: OptionalBody::Missing,
            check_run: OptionalBody::Missing,
            check_suite: OptionalBody::Missing,
            discussion: OptionalBody::Missing,
            discussion_comment: OptionalBody::Missing,
            issue_comment: OptionalBody::Missing,
            issues: OptionalBody::Missing,
            label: OptionalBody::Missing,
            merge_group: OptionalBody::Missing,
            milestone: OptionalBody::Missing,
            project: OptionalBody::Missing,
            project_card: OptionalBody::Missing,
            project_column: OptionalBody::Missing,
            pull_request: OptionalBody::Missing,
            pull_request_comment: OptionalBody::Missing,
            pull_request_review: OptionalBody::Missing,
            pull_request_review_comment: OptionalBody::Missing,
            pull_request_target: OptionalBody::Missing,
            push: OptionalBody::Missing,
            registry_package: OptionalBody::Missing,
            release: OptionalBody::Missing,
            repository_dispatch: OptionalBody::Missing,
            schedule: OptionalBody::Missing,
            watch: OptionalBody::Missing,
            workflow_call: OptionalBody::Missing,
            workflow_dispatch: OptionalBody::Missing,
            workflow_run: OptionalBody::Missing,
        }
    }
}

impl Events {
    /// How many of the event triggers are there: each field that is not
    /// missing counts once.
    ///
    /// This lists every field of `Events` and has to grow with them.
    pub open spec fn present(self) -> nat {
        tally(self.branch_protection_rule) + tally(self.check_run) + tally(self.check_suite)
            + tally(self.discussion) + tally(self.discussion_comment) + tally(self.issue_comment)
            + tally(self.issues) + tally(self.label) + tally(self.merge_group) + tally(
            self.milestone,
        ) + tally(self.project) + tally(self.project_card) + tally(self.project_column) + tally(
            self.pull_request,
        ) + tally(self.pull_request_comment) + tally(self.pull_request_review) + tally(
            self.pull_request_review_comment,
        ) + tally(self.pull_request_target) + tally(self.push) + tally(self.registry_package)
            + tally(self.release) + tally(self.repository_dispatch) + tally(self.schedule) + tally(
            self.watch,
        ) + tally(self.workflow_call) + tally(self.workflow_dispatch) + tally(self.workflow_run)
    }

    /// Count the number of present event triggers.
    pub fn count(&self) -> (r: u32)
        ensures
            r == self.present(),
            r <= 27,
    {
        let mut count: u32 = 0;
        count = add_present(count, &self.branch_protection_rule);
        count = add_present(count, &self.check_run);
        count = add_present(count, &self.check_suite);
        count = add_present(count, &self.discussion);
        count = add_present(count, &self.discussion_comment);
        count = add_present(count, &self.issue_comment);
        count = add_present(count, &self.issues);
        count = add_present(count, &self.label);
        count = add_present(count, &self.merge_group);
        count = add_present(count, &self.milestone);
        count = add_present(count, &self.project);
        count = add_present(count, &self.project_card);
        count = add_present(count, &self.project_column);
        count = add_present(count, &self.pull_request);
        count = add_present(count, &self.pull_request_comment);
        count = add_present(count, &self.pull_request_review);
        count = add_present(count, &self.pull_request_review_comment);
        count = add_present(count, &self.pull_request_target);
        count = add_present(count, &self.push);
        count = add_present(count, &self.registry_package);
        count = add_present(count, &self.release);
        count = add_present(count, &self.repository_dispatch);
        count = add_present(count, &self.schedule);
        count = add_present(count, &self.watch);
        count = add_present(count, &self.workflow_call);
        count = add_present(count, &self.workflow_dispatch);
        count = add_present(count, &self.workflow_run);
        count
    }
}

/// A generic event trigger body.
#[derive(Debug)]
pub struct GenericEvent {
    pub types: Vec<String>,
}

/// The body of a `pull_request` event trigger.
#[derive(Debug)]
pub struct PullRequest {
    pub types: Vec<String>,
    pub branch_filters: Option<BranchFilters>,
    pub path_filters: Option<PathFilters>,
}

/// The body of a `push` event trigger.
#[derive(Debug)]
pub struct Push {
    pub branch_filters: Option<BranchFilters>,
    pub path_filters: Option<PathFilters>,
    pub tag_filters: Option<TagFilters>,
}

/// The body of a `cron` event trigger.
#[derive(Debug)]
pub struct Cron {
    pub cron: String,
}

/// The body of a `workflow_call` event trigger.
#[derive(Debug)]
pub struct WorkflowCall {
    pub inputs: IndexMap<String, WorkflowCallInput>,
    pub outputs: IndexMap<String, WorkflowCallOutput>,
    pub secrets: IndexMap<String, Option<WorkflowCallSecret>>,
}

/// A single input in a `workflow_call` event trigger body.
#[derive(Debug)]
pub struct WorkflowCallInput {
    pub description: Option<String>,
    pub required: bool,
    pub type_: String,
}

/// A single output in a `workflow_call` event trigger body.
#[derive(Debug)]
pub struct WorkflowCallOutput {
    pub description: Option<String>,
    pub value: String,
}

/// A single secret in a `workflow_call` event trigger body.
#[derive(Debug)]
pub struct WorkflowCallSecret {
    pub description: Option<String>,
    pub required: bool,
}

/// The body of a `workflow_dispatch` event trigger.
#[derive(Debug)]
pub struct WorkflowDispatch {
    pub inputs: IndexMap<String, WorkflowDispatchInput>,
}

/// A single input in a `workflow_dispatch` event trigger body.
#[derive(Debug)]
pub struct WorkflowDispatchInput {
    pub description: Option<String>,
    pub required: bool,
    /// One of boolean, choice, number, environment, string; string where
    /// none is given.
    pub type_: Option<String>,
    /// Only present when `type` is `choice`.
    pub options: Vec<EnvValue>,
}

/// The body of a `workflow_run` event trigger.
#[derive(Debug)]
pub struct WorkflowRun {
    pub workflows: Vec<String>,
    pub types: Vec<String>,
    pub branch_filters: Option<BranchFilters>,
}

/// Branch filtering variants for event trigger bodies.
#[derive(Debug)]
pub enum BranchFilters {
    Branches(Vec<String>),
    BranchesIgnore(Vec<String>),
}

/// Tag filtering variants for event trigger bodies.
#[derive(Debug)]
pub enum TagFilters {
    Tags(Vec<String>),
    TagsIgnore(Vec<String>),
}

/// Path filtering variants for event trigger bodies.
#[derive(Debug)]
pub enum PathFilters {
    Paths(Vec<String>),
    PathsIgnore(Vec<String>),
}

} // verus!
