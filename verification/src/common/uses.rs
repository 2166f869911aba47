//! `uses:` references: local paths, repository references and Docker images.

use crate::decode::{outcome, Decode, DecodeError, Failure, Shape};
use crate::text::{
    chars_of, cut, find_first, find_last, lemma_split_first, lemma_split_last, split_first,
    split_last, starts_with,
};
use crate::value::{Tree, Value};
use vstd::prelude::*;

verus! {

/// Why a `uses:` reference could not be parsed. Holds the description.
#[derive(Debug, PartialEq)]
pub struct UsesError(pub String);

/// A `uses: ./some/path` clause.
#[derive(Debug, PartialEq)]
pub struct LocalUses {
    /// The path, as written.
    pub path: String,
}

/// A `uses: some/repo` clause.
#[derive(Debug, PartialEq)]
pub struct RepositoryUses {
    /// The repo user or org.
    pub owner: String,
    /// The repo name.
    pub repo: String,
    /// The subpath to the action or reusable workflow, if present.
    pub subpath: Option<String>,
    /// The `@<ref>` that the `uses:` is pinned to, if present.
    pub git_ref: Option<String>,
}

/// A `uses: docker://some-image` clause.
#[derive(Debug, PartialEq)]
pub struct DockerUses {
    /// The registry this image is on, if present.
    pub registry: Option<String>,
    /// The name of the Docker image.
    pub image: String,
    /// An optional tag for the image.
    pub tag: Option<String>,
    /// An optional integrity hash for the image.
    pub hash: Option<String>,
}

/// A `uses:` reference.
#[derive(Debug, PartialEq)]
pub enum Uses {
    /// A local `uses:` clause, e.g. `uses: ./foo/bar`.
    Local(LocalUses),
    /// A repository `uses:` clause, e.g. `uses: foo/bar`.
    Repository(RepositoryUses),
    /// A Docker image `uses: clause`, e.g. `uses: docker://ubuntu`.
    Docker(DockerUses),
}

/// What a [`LocalUses`] holds.
pub struct LocalUsesView {
    pub path: Seq<char>,
}

/// What a [`RepositoryUses`] holds.
pub struct RepositoryUsesView {
    pub owner: Seq<char>,
    pub repo: Seq<char>,
    pub subpath: Option<Seq<char>>,
    pub git_ref: Option<Seq<char>>,
}

/// What a [`DockerUses`] holds.
pub struct DockerUsesView {
    pub registry: Option<Seq<char>>,
    pub image: Seq<char>,
    pub tag: Option<Seq<char>>,
    pub hash: Option<Seq<char>>,
}

/// What a [`Uses`] holds.
pub enum UsesView {
    Local(LocalUsesView),
    Repository(RepositoryUsesView),
    Docker(DockerUsesView),
}

/// The characters of an optional string.
pub open spec fn text_of(s: Option<String>) -> Option<Seq<char>> {
    match s {
        Some(s) => Some(s@),
        None => None,
    }
}

impl View for LocalUses {
    type V = LocalUsesView;

    open spec fn view(&self) -> LocalUsesView {
        LocalUsesView { path: self.path@ }
    }
}

impl View for RepositoryUses {
    type V = RepositoryUsesView;

    open spec fn view(&self) -> RepositoryUsesView {
        RepositoryUsesView {
            owner: self.owner@,
            repo: self.repo@,
            subpath: text_of(self.subpath),
            git_ref: text_of(self.git_ref),
        }
    }
}

impl View for DockerUses {
    type V = DockerUsesView;

    open spec fn view(&self) -> DockerUsesView {
        DockerUsesView {
            registry: text_of(self.registry),
            image: self.image@,
            tag: text_of(self.tag),
            hash: text_of(self.hash),
        }
    }
}

impl View for Uses {
    type V = UsesView;

    open spec fn view(&self) -> UsesView {
        match self {
            Uses::Local(l) => UsesView::Local(l@),
            Uses::Repository(r) => UsesView::Repository(r@),
            Uses::Docker(d) => UsesView::Docker(d@),
        }
    }
}

impl DeepView for Uses {
    type V = UsesView;

    open spec fn deep_view(&self) -> UsesView {
        self@
    }
}

/// The prefix of a local reference: `./`.
pub open spec fn local_prefix() -> Seq<char> {
    seq!['.', '/']
}

/// The prefix of a Docker reference: `docker://`.
pub open spec fn docker_prefix() -> Seq<char> {
    seq!['d', 'o', 'c', 'k', 'e', 'r', ':', '/', '/']
}

/// The name `localhost`.
pub open spec fn localhost() -> Seq<char> {
    seq!['l', 'o', 'c', 'a', 'l', 'h', 'o', 's', 't']
}

/// `s`, unless it is empty.
pub open spec fn non_empty(s: Seq<char>) -> Option<Seq<char>> {
    if s.len() == 0 {
        None
    } else {
        Some(s)
    }
}

/// What a repository reference `s` means. The ref is what follows the last
/// `@`; of what stands before it, the owner ends at the first `/`, the
/// repository at the second, and the rest is the subpath. Without a `/`
/// there is no owner and repository, and `s` means nothing.
pub open spec fn parse_repository(s: Seq<char>) -> Option<RepositoryUsesView> {
    let (path, git_ref) = match split_last(s, '@') {
        Some((path, git_ref)) => (path, Some(git_ref)),
        None => (s, None),
    };
    match split_first(path, '/') {
        None => None,
        Some((owner, rest)) => match split_first(rest, '/') {
            Some((repo, subpath)) => Some(
                RepositoryUsesView { owner, repo, subpath: Some(subpath), git_ref },
            ),
            None => Some(RepositoryUsesView { owner, repo: rest, subpath: None, git_ref }),
        },
    }
}

/// A repository reference written out again: the owner, `/`, the
/// repository, then `/` and the subpath where there is one, then `@` and the
/// ref where there is one.
pub open spec fn repository_text(repo: RepositoryUsesView) -> Seq<char> {
    let slug = repo.owner + seq!['/'] + repo.repo;
    let path = match repo.subpath {
        Some(subpath) => slug + seq!['/'] + subpath,
        None => slug,
    };
    match repo.git_ref {
        Some(git_ref) => path + seq!['@'] + git_ref,
        None => path,
    }
}

/// Parsing a repository reference loses nothing and cuts where it should:
/// the parts written out again are the text; the owner and the repository
/// hold no `/`, and the ref holds no `@`.
pub proof fn lemma_repository_parts(s: Seq<char>)
    ensures
        parse_repository(s) matches Some(repo) ==> {
            &&& repository_text(repo) == s
            &&& !repo.owner.contains('/')
            &&& !repo.repo.contains('/')
            &&& repo.git_ref matches Some(git_ref) ==> !git_ref.contains('@')
        },
{
    lemma_split_last(s, '@');
    let path = match split_last(s, '@') {
        Some((path, _)) => path,
        None => s,
    };
    lemma_split_first(path, '/');
    if let Some((_, rest)) = split_first(path, '/') {
        lemma_split_first(rest, '/');
    }
}

/// Whether the first segment of an image reference names a registry: it is
/// `localhost`, or holds a `.` or a `:`.
pub open spec fn is_registry(s: Seq<char>) -> bool {
    s == localhost() || s.contains('.') || s.contains(':')
}

/// The registry of the image reference `s` and what follows it. There is a
/// registry only where `s` holds a `/` and what stands before the first one
/// names a registry.
pub open spec fn split_registry(s: Seq<char>) -> (Option<Seq<char>>, Seq<char>) {
    match split_first(s, '/') {
        Some((registry, image)) => if is_registry(registry) {
            (Some(registry), image)
        } else {
            (None, s)
        },
        None => (None, s),
    }
}

/// What a Docker reference means, `s` being what follows `docker://`. After
/// the registry, a `@` introduces a hash and no tag is looked for; else the
/// first `:` introduces a tag. An empty hash or tag counts as none.
pub open spec fn parse_docker(s: Seq<char>) -> DockerUsesView {
    let (registry, image) = split_registry(s);
    match split_first(image, '@') {
        Some((name, hash)) => DockerUsesView {
            registry,
            image: name,
            tag: None,
            hash: non_empty(hash),
        },
        None => match split_first(image, ':') {
            Some((name, tag)) => DockerUsesView {
                registry,
                image: name,
                tag: non_empty(tag),
                hash: None,
            },
            None => DockerUsesView { registry, image, tag: None, hash: None },
        },
    }
}

/// An image reference never has both a tag and a hash, and neither is ever
/// empty. The image itself holds no `@`. A registry, where there is one,
/// passes for one and holds no `/`.
pub proof fn lemma_docker_parts(s: Seq<char>)
    ensures
        !(parse_docker(s).tag.is_some() && parse_docker(s).hash.is_some()),
        parse_docker(s).tag matches Some(tag) ==> tag.len() > 0,
        parse_docker(s).hash matches Some(hash) ==> hash.len() > 0,
        !parse_docker(s).image.contains('@'),
        parse_docker(s).registry matches Some(registry) ==> is_registry(registry)
            && !registry.contains('/'),
{
    lemma_split_first(s, '/');
    let image = split_registry(s).1;
    lemma_split_first(image, '@');
    if split_first(image, '@').is_none() {
        lemma_split_first(image, ':');
        if let Some((name, _)) = split_first(image, ':') {
            if name.contains('@') {
                let k = choose|k: int| 0 <= k < name.len() && name[k] == '@';
                assert(image[k] == '@');
            }
        }
    }
}

/// What a `uses:` reference means. One that begins with `./` is local and is
/// its own path; one that begins with `docker://` is a Docker reference; any
/// other is a repository reference.
pub open spec fn parse_uses(s: Seq<char>) -> Option<UsesView> {
    if local_prefix().is_prefix_of(s) {
        Some(UsesView::Local(LocalUsesView { path: s }))
    } else if docker_prefix().is_prefix_of(s) {
        Some(UsesView::Docker(parse_docker(s.subrange(9, s.len() as int))))
    } else {
        match parse_repository(s) {
            Some(r) => Some(UsesView::Repository(r)),
            None => None,
        }
    }
}

/// The description of a repository reference `s` without owner and
/// repository.
pub open spec fn slug_too_short(s: Seq<char>) -> Seq<char> {
    "owner/repo slug is too short: "@ + s
}

/// What the rules for calling a reusable workflow make of a reference. One
/// to a repository must be pinned to a ref; a local one must hold no `@`; a
/// Docker image is never one.
pub open spec fn reusable(uses: UsesView) -> Result<UsesView, Failure> {
    match uses {
        UsesView::Repository(repo) => if repo.git_ref.is_none() {
            Err(Failure::UnpinnedRepository)
        } else {
            Ok(uses)
        },
        UsesView::Local(local) => if local.path.contains('@') {
            Err(Failure::PinnedLocal)
        } else {
            Ok(uses)
        },
        UsesView::Docker(_) => Err(Failure::DockerNotReusable),
    }
}

/// A reference passes for a call of a reusable workflow exactly where it is
/// a pinned repository reference or a local reference without `@`, and it
/// passes unchanged. Every other reference is refused: the unpinned
/// repository reference, the local reference with `@`, and every Docker
/// reference.
pub proof fn lemma_reusable(uses: UsesView)
    ensures
        reusable(uses) is Ok <==> match uses {
            UsesView::Repository(repo) => repo.git_ref.is_some(),
            UsesView::Local(local) => !local.path.contains('@'),
            UsesView::Docker(_) => false,
        },
        reusable(uses) is Ok ==> reusable(uses) == Ok::<UsesView, Failure>(uses),
        uses is Repository && reusable(uses) is Err ==> reusable(uses) == Err::<UsesView, Failure>(
            Failure::UnpinnedRepository,
        ),
        uses is Local && reusable(uses) is Err ==> reusable(uses) == Err::<UsesView, Failure>(
            Failure::PinnedLocal,
        ),
        uses is Docker ==> reusable(uses) == Err::<UsesView, Failure>(Failure::DockerNotReusable),
{
}

/// What the `uses:` of a job that calls a reusable workflow decodes to: what
/// a step's `uses:` decodes to, held to the rules for reusable workflows.
pub open spec fn reusable_decoded(tree: Tree) -> Result<UsesView, Failure> {
    match Uses::decoded(tree) {
        Ok(uses) => reusable(uses),
        Err(e) => Err(e),
    }
}

/// The part of `s` from `from` up to `to`, unless it is empty.
fn cut_non_empty(s: &str, from: usize, to: usize) -> (out: Option<String>)
    requires
        from <= to <= s@.len(),
    ensures
        text_of(out) == non_empty(s@.subrange(from as int, to as int)),
{
    if from == to {
        None
    } else {
        Some(cut(s, from, to))
    }
}

impl UsesError {
    /// The description of this error, for display.
    pub fn message(&self) -> (r: String)
        ensures
            r@ == "malformed `uses` ref: "@ + self.0@,
    {
        let mut out = "malformed `uses` ref: ".to_owned();
        out.append(self.0.as_str());
        out
    }
}

impl LocalUses {
    /// Reads a local reference: the path is the text as written, any `@`
    /// included.
    pub fn from_str(uses: &str) -> (r: Result<Self, UsesError>)
        ensures
            r matches Ok(l) && l.path@ == uses@,
    {
        Ok(LocalUses { path: uses.to_owned() })
    }
}

impl RepositoryUses {
    /// Reads a repository reference, `owner/repo[/subpath][@ref]`. Fails where
    /// there is no `/` before the last `@`.
    pub fn from_str(uses: &str) -> (r: Result<Self, UsesError>)
        ensures
            match r {
                Ok(repo) => parse_repository(uses@) == Some(repo@),
                Err(e) => parse_repository(uses@).is_none() && e.0@ == slug_too_short(uses@),
            },
    {
        let v = chars_of(uses);
        let n = v.len();
        assert(v@.subrange(0, n as int) =~= v@);
        let (end, git_ref) = match find_last(&v, 0, n, '@') {
            Some(at) => (at, Some(cut(uses, at + 1, n))),
            None => (n, None),
        };
        let ghost path = v@.subrange(0, end as int);
        match find_first(&v, 0, end, '/') {
            None => {
                let mut description = "owner/repo slug is too short: ".to_owned();
                description.append(uses);
                Err(UsesError(description))
            },
            Some(first) => {
                let ghost rest = path.subrange(first + 1, end as int);
                assert(rest =~= v@.subrange(first + 1, end as int));
                assert(path.subrange(0, first as int) =~= v@.subrange(0, first as int));
                let owner = cut(uses, 0, first);
                match find_first(&v, first + 1, end, '/') {
                    Some(second) => {
                        assert(rest.subrange(0, second - first - 1) =~= v@.subrange(
                            first + 1,
                            second as int,
                        ));
                        assert(rest.subrange(second - first, rest.len() as int) =~= v@.subrange(
                            second + 1,
                            end as int,
                        ));
                        Ok(
                            RepositoryUses {
                                owner,
                                repo: cut(uses, first + 1, second),
                                subpath: Some(cut(uses, second + 1, end)),
                                git_ref,
                            },
                        )
                    },
                    None => Ok(
                        RepositoryUses {
                            owner,
                            repo: cut(uses, first + 1, end),
                            subpath: None,
                            git_ref,
                        },
                    ),
                }
            },
        }
    }
}

impl DockerUses {
    /// Whether the first segment of an image reference names a registry.
    pub fn is_registry(registry: &str) -> (r: bool)
        ensures
            r == is_registry(registry@),
    {
        let v = chars_of(registry);
        assert(v@.subrange(0, v.len() as int) =~= v@);
        Self::names_registry(&v, v.len())
    }

    /// Whether `v[0..to]` names a registry.
    fn names_registry(v: &Vec<char>, to: usize) -> (r: bool)
        requires
            to <= v.len(),
        ensures
            r == is_registry(v@.subrange(0, to as int)),
    {
        let ghost s = v@.subrange(0, to as int);
        let name = chars_of("localhost");
        proof {
            reveal_strlit("localhost");
            assert(name@ =~= localhost());
        }
        if to == name.len() && starts_with(v, 0, to, &name) {
            assert(s =~= s.subrange(0, 9));
            return true;
        }
        assert(s != localhost());
        let dot = find_first(v, 0, to, '.');
        let colon = find_first(v, 0, to, ':');
        dot.is_some() || colon.is_some()
    }

    /// Reads an image reference, `[registry/]image[:tag]` or
    /// `[registry/]image[@hash]`: what follows `docker://`.
    pub fn from_str(uses: &str) -> (r: Result<Self, UsesError>)
        ensures
            r matches Ok(d) && d@ == parse_docker(uses@),
    {
        let v = chars_of(uses);
        let n = v.len();
        assert(v@.subrange(0, n as int) =~= v@);
        let (registry, start) = match find_first(&v, 0, n, '/') {
            Some(slash) => if Self::names_registry(&v, slash) {
                (Some(cut(uses, 0, slash)), slash + 1)
            } else {
                (None, 0)
            },
            None => (None, 0),
        };
        let ghost image = v@.subrange(start as int, n as int);
        match find_first(&v, start, n, '@') {
            Some(at) => {
                assert(image.subrange(0, at - start) =~= v@.subrange(start as int, at as int));
                assert(image.subrange(at - start + 1, image.len() as int) =~= v@.subrange(
                    at + 1,
                    n as int,
                ));
                Ok(
                    DockerUses {
                        registry,
                        image: cut(uses, start, at),
                        tag: None,
                        hash: cut_non_empty(uses, at + 1, n),
                    },
                )
            },
            None => match find_first(&v, start, n, ':') {
                Some(colon) => {
                    assert(image.subrange(0, colon - start) =~= v@.subrange(
                        start as int,
                        colon as int,
                    ));
                    assert(image.subrange(colon - start + 1, image.len() as int) =~= v@.subrange(
                        colon + 1,
                        n as int,
                    ));
                    Ok(
                        DockerUses {
                            registry,
                            image: cut(uses, start, colon),
                            tag: cut_non_empty(uses, colon + 1, n),
                            hash: None,
                        },
                    )
                },
                None => Ok(
                    DockerUses { registry, image: cut(uses, start, n), tag: None, hash: None },
                ),
            },
        }
    }
}

impl Uses {
    /// Reads a `uses:` reference. The first of these that applies decides:
    /// the text begins with `./` and is a local reference; it begins with
    /// `docker://` and is a Docker reference; it is a repository reference.
    pub fn from_str(uses: &str) -> (r: Result<Self, UsesError>)
        ensures
            match r {
                Ok(u) => parse_uses(uses@) == Some(u@),
                Err(e) => parse_uses(uses@).is_none() && e.0@ == slug_too_short(uses@),
            },
    {
        let v = chars_of(uses);
        let n = v.len();
        let local = chars_of("./");
        let docker = chars_of("docker://");
        proof {
            reveal_strlit("./");
            reveal_strlit("docker://");
            assert(local@ =~= local_prefix());
            assert(docker@ =~= docker_prefix());
        }
        if starts_with(&v, 0, n, &local) {
            match LocalUses::from_str(uses) {
                Ok(l) => Ok(Uses::Local(l)),
                Err(e) => Err(e),
            }
        } else if starts_with(&v, 0, n, &docker) {
            match DockerUses::from_str(uses.substring_char(9, n)) {
                Ok(d) => Ok(Uses::Docker(d)),
                Err(e) => Err(e),
            }
        } else {
            match RepositoryUses::from_str(uses) {
                Ok(r) => Ok(Uses::Repository(r)),
                Err(e) => Err(e),
            }
        }
    }
}

impl Uses {
    /// Holds a reference to the rules for calling a reusable workflow, and
    /// hands it back where it meets them.
    pub fn reusable(self) -> (r: Result<Self, DecodeError>)
        ensures
            outcome(r) == reusable(self@),
    {
        match self {
            Uses::Repository(repo) => {
                if repo.git_ref.is_none() {
                    Err(DecodeError::UnpinnedRepository)
                } else {
                    Ok(Uses::Repository(repo))
                }
            },
            Uses::Local(local) => {
                let v = chars_of(local.path.as_str());
                assert(v@.subrange(0, v.len() as int) =~= v@);
                if find_first(&v, 0, v.len(), '@').is_some() {
                    Err(DecodeError::PinnedLocal)
                } else {
                    Ok(Uses::Local(local))
                }
            },
            Uses::Docker(_) => Err(DecodeError::DockerNotReusable),
        }
    }
}

impl Decode for Uses {
    /// A reference decodes from a string that means one.
    open spec fn decoded(tree: Tree) -> Result<UsesView, Failure> {
        match tree {
            Tree::String(text) => match parse_uses(text) {
                Some(uses) => Ok(uses),
                None => Err(Failure::MalformedUses(slug_too_short(text))),
            },
            _ => Err(Failure::Expected(Shape::String)),
        }
    }

    fn decode(value: &Value) -> (r: Result<Self, DecodeError>) {
        match value {
            Value::String(text) => match Uses::from_str(text.as_str()) {
                Ok(uses) => Ok(uses),
                Err(e) => Err(DecodeError::MalformedUses(e)),
            },
            _ => Err(DecodeError::Expected(Shape::String)),
        }
    }
}

/// Decodes the `uses:` of an ordinary step.
pub fn step_uses(value: &Value) -> (r: Result<Uses, DecodeError>)
    ensures
        outcome(r) == Uses::decoded(value@),
{
    Uses::decode(value)
}

/// Decodes the `uses:` of a job that calls a reusable workflow.
pub fn reusable_step_uses(value: &Value) -> (r: Result<Uses, DecodeError>)
    ensures
        outcome(r) == reusable_decoded(value@),
{
    match step_uses(value) {
        Ok(uses) => uses.reusable(),
        Err(e) => Err(e),
    }
}

impl core::str::FromStr for Uses {
    type Err = UsesError;

    fn from_str(uses: &str) -> (r: Result<Self, UsesError>)
        ensures
            match r {
                Ok(u) => parse_uses(uses@) == Some(u@),
                Err(e) => parse_uses(uses@).is_none() && e.0@ == slug_too_short(uses@),
            },
    {
        Uses::from_str(uses)
    }
}

impl core::str::FromStr for LocalUses {
    type Err = UsesError;

    fn from_str(uses: &str) -> (r: Result<Self, UsesError>)
        ensures
            r matches Ok(l) && l.path@ == uses@,
    {
        LocalUses::from_str(uses)
    }
}

impl core::str::FromStr for RepositoryUses {
    type Err = UsesError;

    fn from_str(uses: &str) -> (r: Result<Self, UsesError>)
        ensures
            match r {
                Ok(repo) => parse_repository(uses@) == Some(repo@),
                Err(e) => parse_repository(uses@).is_none() && e.0@ == slug_too_short(uses@),
            },
    {
        RepositoryUses::from_str(uses)
    }
}

impl core::str::FromStr for DockerUses {
    type Err = UsesError;

    fn from_str(uses: &str) -> (r: Result<Self, UsesError>)
        ensures
            r matches Ok(d) && d@ == parse_docker(uses@),
    {
        DockerUses::from_str(uses)
    }
}

} // verus!
