//! Walking the tables that are keyed by window handles.
use std::collections::HashMap;
use vstd::prelude::*;

verus! {

broadcast use vstd::std_specs::hash::group_hash_axioms;

/// The handles in a table, each once, in no particular order.
pub fn tracked_handles<V>(table: &HashMap<isize, V>) -> (handles: Vec<isize>)
    ensures
        handles@.no_duplicates(),
        handles@.to_set() == table@.dom(),
{
    let mut handles: Vec<isize> = Vec::new();
    let ghost all = vstd::std_specs::iter::IteratorSpec::remaining(
        &vstd::std_specs::hash::spec_keys_iter(table),
    ).unref();
    for handle in iter: table.keys()
        invariant
            iter.seq().unref() == all,
            handles@.len() == iter.index(),
            forall|i: int| 0 <= i < handles@.len() ==> handles@[i] == *iter.seq()[i],
    {
        handles.push(*handle);
    }
    assert(handles@ =~= all);
    handles
}

/// What a longer list holds.
pub(crate) proof fn lemma_push_contains<T>(s: Seq<T>, item: T, other: T)
    ensures
        s.push(item).contains(other) <==> s.contains(other) || other == item,
{
    let pushed = s.push(item);
    if s.contains(other) {
        let i = choose|i: int| 0 <= i < s.len() && s[i] == other;
        assert(pushed[i] == other);
    }
    assert(pushed[s.len() as int] == item);
}

} // verus!
