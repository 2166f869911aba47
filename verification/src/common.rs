//! Shared models and utilities.

use crate::decode::{outcome, Decode, DecodeError, Failure, Shape};
use crate::value::{Tree, Value};
use indexmap::IndexMap;
use vstd::prelude::*;

pub mod expr;
pub mod uses;

pub use uses::{
    reusable_step_uses, step_uses, DockerUses, LocalUses, RepositoryUses, Uses, UsesError,
};

verus! {

/// `permissions` for a workflow, job, or step.
#[derive(Debug, PartialEq)]
pub enum Permissions {
    /// Base, i.e. blanket permissions.
    Base(BasePermission),
    /// Fine-grained permissions.
    ///
    /// These are modeled with an open-ended mapping rather than a structure
    /// to make iteration over all defined permissions easier.
    Explicit(IndexMap<String, Permission>),
}

impl Default for Permissions {
    /// The blanket default.
    fn default() -> (r: Self)
        ensures
            r == Permissions::Base(BasePermission::Default),
    {
        Permissions::Base(BasePermission::Default)
    }
}

/// "Base" permissions, where all individual permissions are configured
/// with a blanket setting.
#[derive(Debug, PartialEq)]
pub enum BasePermission {
    /// Whatever default permissions come from the workflow's `GITHUB_TOKEN`.
    Default,
    /// "Read" access to all resources.
    ReadAll,
    /// "Write" access to all resources (implies read).
    WriteAll,
}

impl Default for BasePermission {
    fn default() -> (r: Self)
        ensures
            r == BasePermission::Default,
    {
        BasePermission::Default
    }
}

/// A singular permission setting.
#[derive(Debug, PartialEq)]
pub enum Permission {
    /// Read access.
    Read,
    /// Write access.
    Write,
    /// No access.
    NoAccess,
}

impl Default for Permission {
    fn default() -> (r: Self)
        ensures
            r == Permission::NoAccess,
    {
        Permission::NoAccess
    }
}

/// An environment mapping.
pub type Env = IndexMap<String, EnvValue>;

/// Environment variable values are always strings, but GitHub Actions
/// allows users to configure them as various native YAML types before
/// internal stringification.
///
/// This type also gets used for other places where GitHub Actions
/// contextually reinterprets a YAML value as a string, e.g. trigger
/// input values.
#[derive(Debug, PartialEq)]
pub enum EnvValue {
    /// A string. Missing values are empty strings.
    String(String),
    /// A number, by the text that displays it.
    Number(String),
    /// A boolean.
    Boolean(bool),
}

impl EnvValue {
    /// The string that the value stands for.
    pub open spec fn text(self) -> Seq<char> {
        match self {
            EnvValue::String(s) => s@,
            EnvValue::Number(n) => n@,
            EnvValue::Boolean(b) => spelled(b),
        }
    }

    /// The string that the value stands for: the string itself, the number
    /// as displayed, or `true` or `false`.
    pub fn to_text(&self) -> (r: String)
        ensures
            r@ == self.text(),
    {
        match self {
            EnvValue::String(s) => s.clone(),
            EnvValue::Number(n) => n.clone(),
            EnvValue::Boolean(b) => BoS::Bool(*b).into_string(),
        }
    }
}

/// An `if:` condition in a job or action definition.
///
/// These are either booleans or bare (i.e. non-curly) expressions.
#[derive(Debug, PartialEq)]
pub enum If {
    Bool(bool),
    /// Condition expressions can be either "bare" or "curly".
    Expr(String),
}

/// What an [`If`] holds.
pub enum IfView {
    Bool(bool),
    Expr(Seq<char>),
}

impl DeepView for If {
    type V = IfView;

    open spec fn deep_view(&self) -> IfView {
        match self {
            If::Bool(b) => IfView::Bool(*b),
            If::Expr(e) => IfView::Expr(e@),
        }
    }
}

impl Decode for If {
    /// A condition is a boolean, or a string that holds an expression, with
    /// or without the delimiters.
    open spec fn decoded(tree: Tree) -> Result<IfView, Failure> {
        match tree {
            Tree::Bool(b) => Ok(IfView::Bool(b)),
            Tree::String(e) => Ok(IfView::Expr(e)),
            _ => Err(Failure::ExpectedEither(Shape::Bool, Shape::String)),
        }
    }

    fn decode(value: &Value) -> (r: Result<Self, DecodeError>) {
        match BoS::decode(value) {
            Ok(BoS::Bool(b)) => Ok(If::Bool(b)),
            Ok(BoS::String(e)) => Ok(If::Expr(e)),
            Err(e) => Err(e),
        }
    }
}

/// A value that is written either as one item or as a list of items.
#[derive(Debug, PartialEq)]
pub enum SoV<T> {
    /// One item.
    One(T),
    /// A list of items.
    Many(Vec<T>),
}

/// What a [`SoV`] holds.
pub enum SoVView<V> {
    One(V),
    Many(Seq<V>),
}

impl<T: DeepView> DeepView for SoV<T> {
    type V = SoVView<T::V>;

    open spec fn deep_view(&self) -> SoVView<T::V> {
        match self {
            SoV::One(v) => SoVView::One(v.deep_view()),
            SoV::Many(vs) => SoVView::Many(vs.deep_view()),
        }
    }
}

impl<V> SoVView<V> {
    /// The items, in order: the one item alone, or the list as it is.
    pub open spec fn items(self) -> Seq<V> {
        match self {
            SoVView::One(v) => seq![v],
            SoVView::Many(vs) => vs,
        }
    }
}

impl<T: Decode> Decode for SoV<T> {
    /// The single item is tried first, then the list; a tree that is neither
    /// does not decode.
    open spec fn decoded(tree: Tree) -> Result<SoVView<T::V>, Failure> {
        match T::decoded(tree) {
            Ok(v) => Ok(SoVView::One(v)),
            Err(_) => match Vec::<T>::decoded(tree) {
                Ok(vs) => Ok(SoVView::Many(vs)),
                Err(_) => Err(Failure::ExpectedEither(Shape::Scalar, Shape::Sequence)),
            },
        }
    }

    fn decode(value: &Value) -> (r: Result<Self, DecodeError>) {
        match T::decode(value) {
            Ok(v) => Ok(SoV::One(v)),
            Err(_) => match Vec::<T>::decode(value) {
                Ok(vs) => Ok(SoV::Many(vs)),
                Err(_) => Err(DecodeError::ExpectedEither(Shape::Scalar, Shape::Sequence)),
            },
        }
    }
}

impl<T: DeepView> SoV<T> {
    /// The items as a list: the one item alone, or the list as it is.
    pub fn into_vec(self) -> (r: Vec<T>)
        ensures
            r.deep_view() == self.deep_view().items(),
    {
        match self {
            SoV::One(v) => {
                let mut out: Vec<T> = Vec::new();
                out.push(v);
                out
            },
            SoV::Many(vs) => vs,
        }
    }
}

/// What a field that takes one item or a list of items decodes to: always a
/// list, of the one item or of the items in the order written.
pub open spec fn scalar_or_vector_decoded<T: Decode>(tree: Tree) -> Result<Seq<T::V>, Failure> {
    match SoV::<T>::decoded(tree) {
        Ok(sov) => Ok(sov.items()),
        Err(e) => Err(e),
    }
}

/// Decodes a field that takes one item or a list of items.
pub fn scalar_or_vector<T: Decode>(value: &Value) -> (r: Result<Vec<T>, DecodeError>)
    ensures
        outcome(r) == scalar_or_vector_decoded::<T>(value@),
{
    match SoV::<T>::decode(value) {
        Ok(sov) => Ok(sov.into_vec()),
        Err(e) => Err(e),
    }
}

/// A bare item decodes to the list of that one item, and a sequence that is
/// no item itself decodes to its items, unchanged and in the same order.
pub proof fn lemma_scalar_or_vector<T: Decode>(tree: Tree)
    ensures
        T::decoded(tree) matches Ok(v) ==> scalar_or_vector_decoded::<T>(tree) == Ok::<
            Seq<T::V>,
            Failure,
        >(seq![v]),
        T::decoded(tree) is Err && Vec::<T>::decoded(tree) is Ok ==> scalar_or_vector_decoded::<T>(
            tree,
        ) == Vec::<T>::decoded(tree),
{
}

/// A boolean or a string, for the places where a boolean is read as the
/// string that spells it.
#[derive(Debug, PartialEq)]
pub enum BoS {
    /// A boolean.
    Bool(bool),
    /// A string.
    String(String),
}

/// What a [`BoS`] holds.
pub enum BoSView {
    Bool(bool),
    String(Seq<char>),
}

impl DeepView for BoS {
    type V = BoSView;

    open spec fn deep_view(&self) -> BoSView {
        match self {
            BoS::Bool(b) => BoSView::Bool(*b),
            BoS::String(s) => BoSView::String(s@),
        }
    }
}

/// How a boolean is spelled.
pub open spec fn spelled(b: bool) -> Seq<char> {
    if b {
        seq!['t', 'r', 'u', 'e']
    } else {
        seq!['f', 'a', 'l', 's', 'e']
    }
}

impl BoSView {
    /// The string meant: the string itself, or the boolean spelled out.
    pub open spec fn text(self) -> Seq<char> {
        match self {
            BoSView::Bool(b) => spelled(b),
            BoSView::String(s) => s,
        }
    }
}

impl Decode for BoS {
    /// The boolean is tried first, then the string; a tree that is neither
    /// does not decode.
    open spec fn decoded(tree: Tree) -> Result<BoSView, Failure> {
        match tree {
            Tree::Bool(b) => Ok(BoSView::Bool(b)),
            Tree::String(s) => Ok(BoSView::String(s)),
            _ => Err(Failure::ExpectedEither(Shape::Bool, Shape::String)),
        }
    }

    fn decode(value: &Value) -> (r: Result<Self, DecodeError>) {
        match bool::decode(value) {
            Ok(b) => Ok(BoS::Bool(b)),
            Err(_) => match String::decode(value) {
                Ok(s) => Ok(BoS::String(s)),
                Err(_) => Err(DecodeError::ExpectedEither(Shape::Bool, Shape::String)),
            },
        }
    }
}

impl BoS {
    /// The string meant: the string itself, or `true` or `false`.
    pub fn into_string(self) -> (r: String)
        ensures
            r@ == self.deep_view().text(),
    {
        match self {
            BoS::Bool(b) => {
                proof {
                    reveal_strlit("true");
                    reveal_strlit("false");
                }
                if b {
                    "true".to_owned()
                } else {
                    "false".to_owned()
                }
            },
            BoS::String(s) => s,
        }
    }
}

/// What a field that takes a boolean for the string that spells it decodes
/// to.
pub open spec fn bool_is_string_decoded(tree: Tree) -> Result<Seq<char>, Failure> {
    match BoS::decoded(tree) {
        Ok(bos) => Ok(bos.text()),
        Err(e) => Err(e),
    }
}

/// Decodes a field that takes a boolean for the string that spells it.
pub fn bool_is_string(value: &Value) -> (r: Result<String, DecodeError>)
    ensures
        outcome(r) == bool_is_string_decoded(value@),
{
    match BoS::decode(value) {
        Ok(bos) => Ok(bos.into_string()),
        Err(e) => Err(e),
    }
}

/// Decodes a field whose value may be null, and is then the default of its
/// type.
pub fn null_to_default<T: Decode + Default>(value: &Value) -> (r: Result<T, DecodeError>)
    ensures
        match Option::<T>::decoded(value@) {
            Ok(Some(v)) => r matches Ok(t) && t.deep_view() == v,
            Ok(None) => r matches Ok(t) && call_ensures(T::default, (), t),
            Err(e) => r matches Err(f) && f@ == e,
        },
{
    match Option::<T>::decode(value) {
        Ok(Some(v)) => Ok(v),
        Ok(None) => Ok(T::default()),
        Err(e) => Err(e),
    }
}

} // verus!
