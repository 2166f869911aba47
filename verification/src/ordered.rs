//! Maps and sets that keep the order in which their entries were inserted.
//!
//! The collections are those of the `indexmap` crate. What this crate needs
//! of them is stated here and taken on trust.

use indexmap::{IndexMap, IndexSet};
use vstd::prelude::*;

verus! {

/// `indexmap::IndexMap`, a hash map that iterates in insertion order.
#[verifier::external_type_specification]
#[verifier::external_body]
#[verifier::reject_recursive_types(K)]
#[verifier::reject_recursive_types(V)]
#[verifier::reject_recursive_types(S)]
pub struct ExIndexMap<K, V, S>(IndexMap<K, V, S>);

/// `indexmap::IndexSet`, a hash set that iterates in insertion order.
#[verifier::external_type_specification]
#[verifier::external_body]
#[verifier::reject_recursive_types(T)]
#[verifier::reject_recursive_types(S)]
pub struct ExIndexSet<T, S>(IndexSet<T, S>);

/// The strings that a set holds, in the order in which the set hands them
/// out: that of their insertion, as long as nothing is removed.
pub uninterp spec fn set_items(set: IndexSet<String>) -> Seq<Seq<char>>;

/// `IndexSet::new`: a set that holds nothing.
#[verifier::external_body]
pub(crate) fn set_new() -> (set: IndexSet<String>)
    ensures
        set_items(set) == Seq::<Seq<char>>::empty(),
{
    IndexSet::new()
}

/// `IndexSet::insert`: a string that the set does not hold yet is put last
/// and `true` comes back; one that it holds already leaves the set as it
/// was, and `false` comes back.
#[verifier::external_body]
pub(crate) fn set_insert(set: &mut IndexSet<String>, item: String) -> (fresh: bool)
    ensures
        fresh == !set_items(*old(set)).contains(item@),
        set_items(*final(set)) == if fresh {
            set_items(*old(set)).push(item@)
        } else {
            set_items(*old(set))
        },
{
    set.insert(item)
}

} // verus!
