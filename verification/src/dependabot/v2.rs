//! "v2" Dependabot models.
//!
//! Resources:
//! * [Configuration options for the `dependabot.yml` file](https://docs.github.com/en/code-security/dependabot/dependabot-version-updates/configuration-options-for-the-dependabot.yml-file)
//! * [JSON Schema for Dependabot v2](https://json.schemastore.org/dependabot-2.0.json)

use crate::ordered::{set_insert, set_items, set_new};
use indexmap::{IndexMap, IndexSet};
use vstd::prelude::*;

verus! {

/// A `dependabot.yml` configuration file.
#[derive(Debug)]
pub struct Dependabot {
    /// Invariant: `2`
    pub version: u64,
    pub enable_beta_ecosystems: bool,
    pub registries: IndexMap<String, Registry>,
    pub updates: Vec<Update>,
}

/// Different registries known to Dependabot.
#[derive(Debug)]
pub enum Registry {
    ComposerRepository { url: String, username: Option<String>, password: Option<String> },
    DockerRegistry {
        url: String,
        username: Option<String>,
        password: Option<String>,
        replaces_base: bool,
    },
    Git { url: String, username: Option<String>, password: Option<String> },
    HexOrganization { organization: String, key: Option<String> },
    HexRepository {
        repo: Option<String>,
        url: String,
        auth_key: Option<String>,
        public_key_fingerprint: Option<String>,
    },
    MavenRepository { url: String, username: Option<String>, password: Option<String> },
    NpmRegistry {
        url: String,
        username: Option<String>,
        password: Option<String>,
        replaces_base: bool,
    },
    NugetFeed { url: String, username: Option<String>, password: Option<String> },
    PythonIndex {
        url: String,
        username: Option<String>,
        password: Option<String>,
        replaces_base: bool,
    },
    RubygemsServer {
        url: String,
        username: Option<String>,
        password: Option<String>,
        replaces_base: bool,
    },
    TerraformRegistry { url: String, token: Option<String> },
}

/// A single `update` directive.
#[derive(Debug)]
pub struct Update {
    pub allow: Vec<Allow>,
    pub assignees: IndexSet<String>,
    pub commit_message: Option<CommitMessage>,
    pub directory: String,
    pub groups: IndexMap<String, Group>,
    pub ignore: Vec<Ignore>,
    pub insecure_external_code_execution: AllowDeny,
    /// Labels to apply to this update group's pull requests.
    ///
    /// The default label is `dependencies`.
    pub labels: IndexSet<String>,
    pub milestone: Option<u64>,
    /// The maximum number of pull requests to open at a time from this
    /// update group.
    ///
    /// The default maximum is 5.
    pub open_pull_requests_limit: u64,
    pub package_ecosystem: PackageEcosystem,
    pub rebase_strategy: RebaseStrategy,
    pub registries: Vec<String>,
    pub reviewers: IndexSet<String>,
    pub schedule: Schedule,
    pub target_branch: Option<String>,
    pub vendor: bool,
    pub versioning_strategy: Option<VersioningStrategy>,
}

/// The labels of an update that names none: the one label `dependencies`.
pub fn default_labels() -> (labels: IndexSet<String>)
    ensures
        set_items(labels) == seq!["dependencies"@],
{
    let mut labels = set_new();
    set_insert(&mut labels, "dependencies".to_owned());
    labels
}

/// The limit on open pull requests of an update that names none.
pub fn default_open_pull_requests_limit() -> (limit: u64)
    ensures
        limit == 5,
{
    5
}

/// Allow rules for Dependabot updates.
#[derive(Debug)]
pub struct Allow {
    pub dependency_name: Option<String>,
    pub dependency_type: Option<DependencyType>,
}

/// Dependency types in `allow` rules.
#[derive(Debug)]
pub enum DependencyType {
    Direct,
    Indirect,
    All,
    Production,
    Development,
}

/// Commit message settings for Dependabot updates.
#[derive(Debug)]
pub struct CommitMessage {
    pub prefix: Option<String>,
    pub prefix_development: Option<String>,
    /// Invariant: `"scope"`
    pub include_: Option<String>,
}

/// Group settings for batched updates.
#[derive(Debug)]
pub struct Group {
    /// This can only be [`DependencyType::Development`] or
    /// [`DependencyType::Production`].
    pub dependency_type: Option<DependencyType>,
    pub patterns: IndexSet<String>,
    pub exclude_patterns: IndexSet<String>,
    pub update_types: IndexSet<UpdateType>,
}

/// Update types for grouping.
#[derive(Debug, Hash, Eq, PartialEq)]
pub enum UpdateType {
    Major,
    Minor,
    Patch,
}

/// Dependency ignore settings for updates.
#[derive(Debug)]
pub struct Ignore {
    pub dependency_name: Option<String>,
    /// These are, inexplicably, not [`UpdateType`] variants.
    /// Instead, they're strings like `"version-update:semver-{major,minor,patch}"`.
    pub update_types: IndexSet<String>,
    pub versions: IndexSet<String>,
}

/// An "allow"/"deny" toggle.
#[derive(Debug)]
pub enum AllowDeny {
    Allow,
    Deny,
}

impl Default for AllowDeny {
    fn default() -> (r: Self)
        ensures
            r is Deny,
    {
        AllowDeny::Deny
    }
}

/// Supported packaging ecosystems.
#[derive(Debug, PartialEq)]
pub enum PackageEcosystem {
    Bundler,
    Cargo,
    Composer,
    Docker,
    Elm,
    Gitsubmodule,
    GithubActions,
    Gomod,
    Gradle,
    Maven,
    Mix,
    Npm,
    Nuget,
    Pip,
    Pub,
    Swift,
    Terraform,
}

/// Rebase strategies for Dependabot updates.
#[derive(Debug, PartialEq)]
pub enum RebaseStrategy {
    Auto,
    Disabled,
}

impl Default for RebaseStrategy {
    fn default() -> (r: Self)
        ensures
            r is Auto,
    {
        RebaseStrategy::Auto
    }
}

/// Scheduling settings for Dependabot updates.
#[derive(Debug)]
pub struct Schedule {
    pub interval: Interval,
    pub day: Option<Day>,
    pub time: Option<String>,
    pub timezone: Option<String>,
}

/// Schedule intervals.
#[derive(Debug, PartialEq)]
pub enum Interval {
    Daily,
    Weekly,
    Monthly,
}

/// Days of the week.
#[derive(Debug, PartialEq)]
pub enum Day {
    Monday,
    Tuesday,
    Wednesday,
    Thursday,
    Friday,
    Saturday,
    Sunday,
}

/// Versioning strategies.
#[derive(Debug, PartialEq)]
pub enum VersioningStrategy {
    Auto,
    Increase,
    IncreaseIfNecessary,
    LockfileOnly,
    Widen,
}

} // verus!
