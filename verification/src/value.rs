//! The loosely typed values that decoding starts from: a document as a tree
//! of scalars, sequences and mappings.

use vstd::prelude::*;

verus! {

/// A value of a document, as a generic tree.
#[derive(Debug, PartialEq)]
pub enum Value {
    /// No value: an explicit null, or a key with nothing after it.
    Null,
    /// A boolean.
    Bool(bool),
    /// A whole number.
    Integer(i128),
    /// A number that is not whole, by its text.
    Real(String),
    /// A string.
    String(String),
    /// A sequence of values.
    Sequence(Vec<Value>),
    /// A mapping, as its entries in the order they were written.
    Mapping(Vec<(Value, Value)>),
    /// A value with a tag in front.
    Tagged(String, Box<Value>),
}

/// What a [`Value`] holds.
pub enum Tree {
    Null,
    Bool(bool),
    Integer(int),
    Real(Seq<char>),
    String(Seq<char>),
    Sequence(Seq<Tree>),
    Mapping(Seq<(Tree, Tree)>),
    Tagged(Seq<char>, Box<Tree>),
}

impl Value {
    /// What this value holds.
    pub open spec fn tree(self) -> Tree
        decreases self,
    {
        match self {
            Value::Null => Tree::Null,
            Value::Bool(b) => Tree::Bool(b),
            Value::Integer(i) => Tree::Integer(i as int),
            Value::Real(text) => Tree::Real(text@),
            Value::String(text) => Tree::String(text@),
            Value::Sequence(items) => Tree::Sequence(
                Seq::new(
                    items@.len(),
                    |i: int|
                        if 0 <= i < items@.len() {
                            items@[i].tree()
                        } else {
                            Tree::Null
                        },
                ),
            ),
            Value::Mapping(entries) => Tree::Mapping(
                Seq::new(
                    entries@.len(),
                    |i: int|
                        if 0 <= i < entries@.len() {
                            (entries@[i].0.tree(), entries@[i].1.tree())
                        } else {
                            (Tree::Null, Tree::Null)
                        },
                ),
            ),
            Value::Tagged(tag, inner) => Tree::Tagged(tag@, Box::new((*inner).tree())),
        }
    }
}

impl View for Value {
    type V = Tree;

    open spec fn view(&self) -> Tree {
        self.tree()
    }
}

impl DeepView for Value {
    type V = Tree;

    open spec fn deep_view(&self) -> Tree {
        self@
    }
}

/// The value under the key `key` in the entries of a mapping: that of the
/// first entry whose key is the string `key`.
pub open spec fn entry(entries: Seq<(Tree, Tree)>, key: Seq<char>) -> Option<Tree>
    decreases entries.len(),
{
    if entries.len() == 0 {
        None
    } else if entries[0].0 == Tree::String(key) {
        Some(entries[0].1)
    } else {
        entry(entries.subrange(1, entries.len() as int), key)
    }
}

impl Tree {
    /// The value under the key `key`, where this is a mapping that has it.
    pub open spec fn get(self, key: Seq<char>) -> Option<Tree> {
        match self {
            Tree::Mapping(entries) => entry(entries, key),
            _ => None,
        }
    }
}

impl Value {
    /// The value under the key `key`, where this is a mapping that has it.
    pub fn get(&self, key: &str) -> (r: Option<&Value>)
        ensures
            match r {
                Some(v) => self@.get(key@) == Some(v@),
                None => self@.get(key@).is_none(),
            },
    {
        match self {
            Value::Mapping(entries) => {
                let ghost trees = self@->Mapping_0;
                let wanted = key.to_owned();
                let mut i: usize = 0;
                assert(trees.subrange(0, trees.len() as int) =~= trees);
                while i < entries.len()
                    invariant
                        i <= entries.len(),
                        wanted@ == key@,
                        self@ == Tree::Mapping(trees),
                        trees.len() == entries.len(),
                        forall|j: int|
                            0 <= j < entries.len() ==> trees[j] == (
                                (#[trigger] entries[j]).0@,
                                entries[j].1@,
                            ),
                        entry(trees, key@) == entry(
                            trees.subrange(i as int, trees.len() as int),
                            key@,
                        ),
                    decreases entries.len() - i,
                {
                    let ghost rest = trees.subrange(i as int, trees.len() as int);
                    assert(rest.subrange(1, rest.len() as int) =~= trees.subrange(
                        i + 1,
                        trees.len() as int,
                    ));
                    match &entries[i].0 {
                        Value::String(name) => {
                            if *name == wanted {
                                return Some(&entries[i].1);
                            }
                        },
                        _ => {},
                    }
                    i += 1;
                }
                None
            },
            _ => None,
        }
    }
}

impl Value {
    /// A copy of this value.
    pub fn duplicate(&self) -> (r: Value)
        ensures
            r@ == self@,
        decreases self,
    {
        match self {
            Value::Null => Value::Null,
            Value::Bool(b) => Value::Bool(*b),
            Value::Integer(i) => Value::Integer(*i),
            Value::Real(text) => Value::Real(text.clone()),
            Value::String(text) => Value::String(text.clone()),
            Value::Sequence(items) => {
                let mut out: Vec<Value> = Vec::new();
                let mut i: usize = 0;
                while i < items.len()
                    invariant
                        i <= items.len(),
                        out.len() == i,
                        self == Value::Sequence(*items),
                        forall|j: int| 0 <= j < i ==> (#[trigger] out[j])@ == items[j]@,
                    decreases items.len() - i,
                {
                    assert(decreases_to!(self->Sequence_0@ => self->Sequence_0@[i as int]));
                    out.push(items[i].duplicate());
                    i += 1;
                }
                let r = Value::Sequence(out);
                assert(r@->Sequence_0 =~= self@->Sequence_0);
                r
            },
            Value::Mapping(entries) => {
                let mut out: Vec<(Value, Value)> = Vec::new();
                let mut i: usize = 0;
                while i < entries.len()
                    invariant
                        i <= entries.len(),
                        out.len() == i,
                        self == Value::Mapping(*entries),
                        forall|j: int|
                            0 <= j < i ==> (#[trigger] out[j]).0@ == entries[j].0@ && out[j].1@
                                == entries[j].1@,
                    decreases entries.len() - i,
                {
                    assert(decreases_to!(self->Mapping_0@ => self->Mapping_0@[i as int]));
                    let key = entries[i].0.duplicate();
                    let body = entries[i].1.duplicate();
                    out.push((key, body));
                    i += 1;
                }
                let r = Value::Mapping(out);
                assert(r@->Mapping_0 =~= self@->Mapping_0);
                r
            },
            Value::Tagged(tag, inner) => Value::Tagged(tag.clone(), Box::new(inner.duplicate())),
        }
    }
}

} // verus!
