//! Decoding typed values out of the generic tree of a document.
//!
//! A type that implements [`Decode`] says, as a specification function on
//! trees, what each tree decodes to or why it does not; its `decode` is proved
//! to compute exactly that.

use crate::common::uses::UsesError;
use crate::value::{Tree, Value};
use vstd::prelude::*;

verus! {

/// A shape that a value was expected to have.
#[derive(Debug, Clone, Copy, PartialEq, Eq)]
pub enum Shape {
    /// A boolean.
    Bool,
    /// A whole number that is not negative and fits 64 bits.
    Unsigned,
    /// A string.
    String,
    /// A sequence.
    Sequence,
    /// A mapping.
    Mapping,
    /// An expression fenced by `${{` and `}}`.
    Expression,
    /// The literal value that an expression can stand for.
    Literal,
    /// A single item where a list of items can stand.
    Scalar,
    /// The labels of a runner, one or a list.
    Target,
    /// A runner group with its labels.
    Group,
}

impl Shape {
    /// The words for this shape in a description.
    pub open spec fn name(self) -> Seq<char> {
        match self {
            Shape::Bool => "a boolean"@,
            Shape::Unsigned => "an unsigned integer"@,
            Shape::String => "a string"@,
            Shape::Sequence => "a sequence"@,
            Shape::Mapping => "a mapping"@,
            Shape::Expression => "an expression"@,
            Shape::Literal => "a literal"@,
            Shape::Scalar => "a single value"@,
            Shape::Target => "runner labels"@,
            Shape::Group => "a runner group"@,
        }
    }

    /// The words for this shape in a description.
    pub fn label(&self) -> (r: &'static str)
        ensures
            r@ == self.name(),
    {
        match self {
            Shape::Bool => "a boolean",
            Shape::Unsigned => "an unsigned integer",
            Shape::String => "a string",
            Shape::Sequence => "a sequence",
            Shape::Mapping => "a mapping",
            Shape::Expression => "an expression",
            Shape::Literal => "a literal",
            Shape::Scalar => "a single value",
            Shape::Target => "runner labels",
            Shape::Group => "a runner group",
        }
    }
}

/// Why a value did not decode.
#[derive(Debug, PartialEq)]
pub enum DecodeError {
    /// The value has not the one shape that was tried.
    Expected(Shape),
    /// The value has neither of the two shapes that were tried, in that order.
    ExpectedEither(Shape, Shape),
    /// A string that had to be an expression lacks the `${{` and `}}`
    /// delimiters.
    InvalidExpression,
    /// A `uses:` reference that means nothing.
    MalformedUses(UsesError),
    /// A reusable workflow in a repository is referred to without `@<ref>`.
    UnpinnedRepository,
    /// A local reusable workflow is referred to with `@<ref>`.
    PinnedLocal,
    /// A Docker image is referred to where a reusable workflow is called.
    DockerNotReusable,
    /// A runner group names neither a group nor a label.
    EmptyRunsOn,
    /// What stands under a key of a mapping did not decode, and why.
    Field(String, Box<DecodeError>),
}

/// What a [`DecodeError`] holds.
pub enum Failure {
    Expected(Shape),
    ExpectedEither(Shape, Shape),
    InvalidExpression,
    MalformedUses(Seq<char>),
    UnpinnedRepository,
    PinnedLocal,
    DockerNotReusable,
    EmptyRunsOn,
    Field(Seq<char>, Box<Failure>),
}

impl DecodeError {
    /// What this error holds.
    pub open spec fn failure(self) -> Failure
        decreases self,
    {
        match self {
            DecodeError::Expected(shape) => Failure::Expected(shape),
            DecodeError::ExpectedEither(first, second) => Failure::ExpectedEither(first, second),
            DecodeError::InvalidExpression => Failure::InvalidExpression,
            DecodeError::MalformedUses(e) => Failure::MalformedUses(e.0@),
            DecodeError::UnpinnedRepository => Failure::UnpinnedRepository,
            DecodeError::PinnedLocal => Failure::PinnedLocal,
            DecodeError::DockerNotReusable => Failure::DockerNotReusable,
            DecodeError::EmptyRunsOn => Failure::EmptyRunsOn,
            DecodeError::Field(key, cause) => Failure::Field(key@, Box::new((*cause).failure())),
        }
    }
}

impl View for DecodeError {
    type V = Failure;

    open spec fn view(&self) -> Failure {
        self.failure()
    }
}

impl Failure {
    /// The description of this failure: what was wrong with the value, and
    /// which shapes were tried where it is one of shape.
    pub open spec fn text(self) -> Seq<char>
        decreases self,
    {
        match self {
            Failure::Expected(shape) => "invalid type: expected "@ + shape.name(),
            Failure::ExpectedEither(first, second) => "data is neither "@ + first.name() + " nor "@
                + second.name(),
            Failure::InvalidExpression => "invalid expression: expected '${{' and '}}' delimiters"@,
            Failure::MalformedUses(description) => "malformed `uses` ref: "@ + description,
            Failure::UnpinnedRepository => "repo action must have `@<ref>` in reusable workflow"@,
            Failure::PinnedLocal => "local reusable workflow reference can't specify `@<ref>`"@,
            Failure::DockerNotReusable => "docker action invalid in reusable workflow `uses`"@,
            Failure::EmptyRunsOn => "runs-on must provide either `group` or one or more `labels`"@,
            Failure::Field(key, cause) => key + ": "@ + (*cause).text(),
        }
    }
}

impl DecodeError {
    /// The description of this error, for display.
    pub fn message(&self) -> (r: String)
        ensures
            r@ == self@.text(),
        decreases self,
    {
        match self {
            DecodeError::Expected(shape) => {
                let mut out = "invalid type: expected ".to_owned();
                out.append(shape.label());
                out
            },
            DecodeError::ExpectedEither(first, second) => {
                let mut out = "data is neither ".to_owned();
                out.append(first.label());
                out.append(" nor ");
                out.append(second.label());
                out
            },
            DecodeError::InvalidExpression => {
                "invalid expression: expected '${{' and '}}' delimiters".to_owned()
            },
            DecodeError::MalformedUses(e) => e.message(),
            DecodeError::UnpinnedRepository => {
                "repo action must have `@<ref>` in reusable workflow".to_owned()
            },
            DecodeError::PinnedLocal => {
                "local reusable workflow reference can't specify `@<ref>`".to_owned()
            },
            DecodeError::DockerNotReusable => {
                "docker action invalid in reusable workflow `uses`".to_owned()
            },
            DecodeError::EmptyRunsOn => {
                "runs-on must provide either `group` or one or more `labels`".to_owned()
            },
            DecodeError::Field(key, cause) => {
                let mut out = key.clone();
                out.append(": ");
                let why = cause.message();
                out.append(why.as_str());
                out
            },
        }
    }

    /// This error as that of what stands under the key `key` of a mapping.
    pub fn at(self, key: &str) -> (r: DecodeError)
        ensures
            r@ == Failure::Field(key@, Box::new(self@)),
    {
        DecodeError::Field(key.to_owned(), Box::new(self))
    }
}

/// The outcome of a decoding, by what the decoded value or the error holds.
pub open spec fn outcome<T: DeepView>(r: Result<T, DecodeError>) -> Result<T::V, Failure> {
    match r {
        Ok(v) => Ok(v.deep_view()),
        Err(e) => Err(e@),
    }
}

/// A type whose values can be decoded from a [`Value`].
pub trait Decode: Sized + DeepView {
    /// What `tree` decodes to, or why it does not decode.
    spec fn decoded(tree: Tree) -> Result<Self::V, Failure>;

    /// Decodes `value`.
    fn decode(value: &Value) -> (r: Result<Self, DecodeError>)
        ensures
            outcome(r) == Self::decoded(value@),
    ;
}

impl Decode for Value {
    /// A value decodes from any tree, as that tree.
    open spec fn decoded(tree: Tree) -> Result<Tree, Failure> {
        Ok(tree)
    }

    fn decode(value: &Value) -> (r: Result<Self, DecodeError>) {
        Ok(value.duplicate())
    }
}

impl Decode for String {
    /// A string decodes from a string and from nothing else.
    open spec fn decoded(tree: Tree) -> Result<Seq<char>, Failure> {
        match tree {
            Tree::String(text) => Ok(text),
            _ => Err(Failure::Expected(Shape::String)),
        }
    }

    fn decode(value: &Value) -> (r: Result<Self, DecodeError>) {
        match value {
            Value::String(text) => Ok(text.clone()),
            _ => Err(DecodeError::Expected(Shape::String)),
        }
    }
}

impl Decode for bool {
    /// A boolean decodes from a boolean and from nothing else.
    open spec fn decoded(tree: Tree) -> Result<bool, Failure> {
        match tree {
            Tree::Bool(b) => Ok(b),
            _ => Err(Failure::Expected(Shape::Bool)),
        }
    }

    fn decode(value: &Value) -> (r: Result<Self, DecodeError>) {
        let r = match value {
            Value::Bool(b) => Ok(*b),
            _ => Err(DecodeError::Expected(Shape::Bool)),
        };
        assert(outcome(r) == Self::decoded(value@));
        r
    }
}

impl Decode for u64 {
    /// An unsigned number decodes from a whole number in its range.
    open spec fn decoded(tree: Tree) -> Result<u64, Failure> {
        match tree {
            Tree::Integer(i) if 0 <= i <= u64::MAX => Ok(i as u64),
            _ => Err(Failure::Expected(Shape::Unsigned)),
        }
    }

    fn decode(value: &Value) -> (r: Result<Self, DecodeError>) {
        match value {
            Value::Integer(i) if 0 <= *i && *i <= 0xFFFF_FFFF_FFFF_FFFF => Ok(*i as u64),
            _ => Err(DecodeError::Expected(Shape::Unsigned)),
        }
    }
}

impl<T: Decode> Decode for Option<T> {
    /// An optional value is absent where the tree is null, and decodes as
    /// the value otherwise.
    open spec fn decoded(tree: Tree) -> Result<Option<T::V>, Failure> {
        match tree {
            Tree::Null => Ok(None),
            _ => match T::decoded(tree) {
                Ok(v) => Ok(Some(v)),
                Err(e) => Err(e),
            },
        }
    }

    fn decode(value: &Value) -> (r: Result<Self, DecodeError>) {
        match value {
            Value::Null => Ok(None),
            _ => match T::decode(value) {
                Ok(v) => Ok(Some(v)),
                Err(e) => Err(e),
            },
        }
    }
}

/// What the items of a sequence decode to, in order, or why the first of
/// them that does not decode does not.
pub open spec fn decoded_items<T: Decode>(items: Seq<Tree>) -> Result<Seq<T::V>, Failure>
    decreases items.len(),
{
    if items.len() == 0 {
        Ok(Seq::empty())
    } else {
        match decoded_items::<T>(items.drop_last()) {
            Err(e) => Err(e),
            Ok(before) => match T::decoded(items.last()) {
                Ok(v) => Ok(before.push(v)),
                Err(e) => Err(e),
            },
        }
    }
}

impl<T: Decode> Decode for Vec<T> {
    /// A list decodes from a sequence whose items all decode.
    open spec fn decoded(tree: Tree) -> Result<Seq<T::V>, Failure> {
        match tree {
            Tree::Sequence(items) => decoded_items::<T>(items),
            _ => Err(Failure::Expected(Shape::Sequence)),
        }
    }

    fn decode(value: &Value) -> (r: Result<Self, DecodeError>) {
        match value {
            Value::Sequence(items) => {
                let ghost trees = value@->Sequence_0;
                let mut out: Vec<T> = Vec::new();
                let mut i: usize = 0;
                assert(out.deep_view() =~= Seq::<T::V>::empty());
                while i < items.len()
                    invariant
                        i <= items.len(),
                        trees.len() == items.len(),
                        value@ == Tree::Sequence(trees),
                        forall|j: int| 0 <= j < items.len() ==> trees[j] == #[trigger] items[j]@,
                        decoded_items::<T>(trees.take(i as int)) == Ok::<Seq<T::V>, Failure>(
                            out.deep_view(),
                        ),
                    decreases items.len() - i,
                {
                    assert(trees.take(i + 1).drop_last() =~= trees.take(i as int));
                    match T::decode(&items[i]) {
                        Ok(v) => {
                            let ghost before = out.deep_view();
                            out.push(v);
                            assert(out.deep_view() =~= before.push(v.deep_view()));
                        },
                        Err(e) => {
                            proof {
                                lemma_decoded_items_fails::<T>(trees, i + 1);
                            }
                            return Err(e);
                        },
                    }
                    i += 1;
                }
                assert(trees.take(i as int) =~= trees);
                Ok(out)
            },
            _ => Err(DecodeError::Expected(Shape::Sequence)),
        }
    }
}

/// Once the first items of a sequence fail to decode, the sequence fails in
/// the same way.
pub proof fn lemma_decoded_items_fails<T: Decode>(items: Seq<Tree>, n: int)
    requires
        0 <= n <= items.len(),
        decoded_items::<T>(items.take(n)) is Err,
    ensures
        decoded_items::<T>(items) == decoded_items::<T>(items.take(n)),
    decreases items.len() - n,
{
    if n < items.len() {
        assert(items.drop_last().take(n) =~= items.take(n));
        lemma_decoded_items_fails::<T>(items.drop_last(), n);
    } else {
        assert(items.take(n) =~= items);
    }
}

/// A sequence decodes exactly where each of its items does, and then to as
/// many values, each the one that the item at its place decodes to.
pub proof fn lemma_decoded_items_in_order<T: Decode>(items: Seq<Tree>)
    ensures
        decoded_items::<T>(items) is Ok <==> forall|i: int|
            0 <= i < items.len() ==> (#[trigger] T::decoded(items[i])) is Ok,
        decoded_items::<T>(items) matches Ok(values) ==> values.len() == items.len() && forall|
            i: int,
        |
            0 <= i < items.len() ==> T::decoded(items[i]) == Ok::<T::V, Failure>(
                #[trigger] values[i],
            ),
    decreases items.len(),
{
    if items.len() > 0 {
        let front = items.drop_last();
        lemma_decoded_items_in_order::<T>(front);
        assert forall|i: int| 0 <= i < front.len() implies front[i] == items[i] by {}
        if decoded_items::<T>(items) is Ok {
            assert forall|i: int| 0 <= i < items.len() implies (#[trigger] T::decoded(
                items[i],
            )) is Ok by {}
        }
        if forall|i: int| 0 <= i < items.len() ==> (#[trigger] T::decoded(items[i])) is Ok {
            assert forall|i: int| 0 <= i < front.len() implies (#[trigger] T::decoded(
                front[i],
            )) is Ok by {}
        }
    }
}

} // verus!
