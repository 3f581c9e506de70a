//! Facts about filtered sequences.

use vstd::prelude::*;

verus! {

/// Filtering keeps a sequence as it is where every item passes.
pub proof fn lemma_filter_all<A>(items: Seq<A>, pred: spec_fn(A) -> bool)
    requires
        forall|i: int| 0 <= i < items.len() ==> pred(#[trigger] items[i]),
    ensures
        items.filter(pred) == items,
    decreases items.len(),
{
    reveal(Seq::filter);
    if items.len() > 0 {
        lemma_filter_all(items.drop_last(), pred);
        assert(items.drop_last().push(items.last()) =~= items);
    }
}

/// A filtered sequence holds just those items of the sequence that pass.
pub proof fn lemma_filter_holds_what_passes<A>(items: Seq<A>, pred: spec_fn(A) -> bool, item: A)
    ensures
        items.filter(pred).contains(item) <==> items.contains(item) && pred(item),
{
    let passing = items.filter(pred);
    if passing.contains(item) {
        let at = choose|at: int| 0 <= at < passing.len() && passing[at] == item;
        items.lemma_filter_pred(pred, at);
        items.lemma_filter_contains_rev(pred, item);
    }
    if items.contains(item) && pred(item) {
        let at = choose|at: int| 0 <= at < items.len() && items[at] == item;
        items.lemma_filter_contains(pred, at);
    }
}

/// What passes among the first items of a sequence stands first among what
/// passes in the whole sequence.
pub proof fn lemma_filter_of_front<A>(items: Seq<A>, pred: spec_fn(A) -> bool, count: int)
    requires
        0 <= count <= items.len(),
    ensures
        items.take(count).filter(pred) + items.skip(count).filter(pred) == items.filter(pred),
        items.take(count).filter(pred).len() <= count,
{
    assert(items.take(count) + items.skip(count) =~= items);
    Seq::filter_distributes_over_add(items.take(count), items.skip(count), pred);
    items.take(count).lemma_filter_len(pred);
}

/// An item that passes stands, among what passes, behind just those that
/// pass before it.
pub proof fn lemma_place_of_kept<A>(items: Seq<A>, pred: spec_fn(A) -> bool, index: int)
    requires
        0 <= index < items.len(),
        pred(items[index]),
    ensures
        0 <= items.take(index).filter(pred).len() < items.filter(pred).len(),
        items.filter(pred)[items.take(index).filter(pred).len() as int] == items[index],
{
    let front = items.take(index);
    assert(items.take(index + 1) =~= front.push(items[index]));
    front.lemma_filter_push(items[index], pred);
    lemma_filter_of_front(items, pred, index + 1);
    let upto = items.take(index + 1).filter(pred);
    assert(upto[front.filter(pred).len() as int] == items[index]);
    assert(items.filter(pred)[front.filter(pred).len() as int] == upto[front.filter(
        pred,
    ).len() as int]);
}

/// Filtering and mapping can change places, where an item passes the one
/// test just if its image passes the other.
pub proof fn lemma_filter_then_map<A, B>(
    items: Seq<A>,
    first: spec_fn(A) -> bool,
    f: spec_fn(A) -> B,
    second: spec_fn(B) -> bool,
)
    requires
        forall|i: int| 0 <= i < items.len() ==> first(#[trigger] items[i]) == second(f(items[i])),
    ensures
        items.filter(first).map_values(f) == items.map_values(f).filter(second),
    decreases items.len(),
{
    if items.len() == 0 {
        reveal(Seq::filter);
        assert(items.filter(first) =~= items);
        assert(items.map_values(f).filter(second) =~= Seq::<B>::empty());
        assert(items.filter(first).map_values(f) =~= Seq::<B>::empty());
    } else {
        let front = items.drop_last();
        let last = items.last();
        assert(items =~= front.push(last));
        assert forall|i: int| 0 <= i < front.len() implies first(#[trigger] front[i]) == second(
            f(front[i]),
        ) by {
            assert(front[i] == items[i]);
        }
        lemma_filter_then_map(front, first, f, second);
        front.lemma_filter_push(last, first);
        assert(items.map_values(f) =~= front.map_values(f).push(f(last)));
        front.map_values(f).lemma_filter_push(f(last), second);
        assert(first(items[items.len() - 1]) == second(f(last)));
        if first(last) {
            assert(front.filter(first).push(last).map_values(f) =~= front.filter(first).map_values(
                f,
            ).push(f(last)));
        }
    }
}

} // verus!
