//! Finding a node by its name: the first node that bears the name counts.

use vstd::prelude::*;

verus! {

/// Whether `index` is the first place in `names` that holds `name`.
pub open spec fn is_first(names: Seq<Seq<char>>, name: Seq<char>, index: int) -> bool {
    &&& 0 <= index < names.len()
    &&& names[index] == name
    &&& forall|earlier: int| 0 <= earlier < index ==> names[earlier] != name
}

/// The first place in `names` that holds `name`, if any does.
pub open spec fn resolve(names: Seq<Seq<char>>, name: Seq<char>) -> Option<int> {
    if exists|index: int| is_first(names, name, index) {
        Some(choose|index: int| is_first(names, name, index))
    } else {
        None
    }
}

/// A name has at most one first place.
pub proof fn lemma_first_is_unique(names: Seq<Seq<char>>, name: Seq<char>, a: int, b: int)
    requires
        is_first(names, name, a),
        is_first(names, name, b),
    ensures
        a == b,
{
    if a < b {
        assert(names[a] != name);
    } else if b < a {
        assert(names[b] != name);
    }
}

/// A name resolves to the place where it first stands.
pub proof fn lemma_resolve_found(names: Seq<Seq<char>>, name: Seq<char>, index: int)
    requires
        is_first(names, name, index),
    ensures
        resolve(names, name) == Some(index),
{
    let chosen = choose|k: int| is_first(names, name, k);
    lemma_first_is_unique(names, name, chosen, index);
}

/// A name that stands nowhere does not resolve, and a name that does not
/// resolve stands nowhere.
pub proof fn lemma_resolve_none(names: Seq<Seq<char>>, name: Seq<char>)
    ensures
        resolve(names, name) is None <==> !names.contains(name),
{
    if names.contains(name) {
        let first = lemma_least_place(names, name, names.len() as int);
        assert(is_first(names, name, first));
    } else {
        assert forall|index: int| !is_first(names, name, index) by {
            if 0 <= index < names.len() && names[index] == name {
                assert(names.contains(name));
            }
        }
    }
}

/// Among the first `bound` places, if one holds `name` then one is the
/// first to do so.
proof fn lemma_least_place(names: Seq<Seq<char>>, name: Seq<char>, bound: int) -> (first: int)
    requires
        0 <= bound <= names.len(),
        exists|index: int| 0 <= index < bound && names[index] == name,
    ensures
        is_first(names, name, first),
        first < bound,
    decreases bound,
{
    if exists|index: int| 0 <= index < bound - 1 && names[index] == name {
        lemma_least_place(names, name, bound - 1)
    } else {
        assert(names[bound - 1] == name);
        bound - 1
    }
}

} // verus!
