//! Directed graphs as values: a sequence of nodes and a sequence of edges
//! between them, each edge with the indices of its two ends.

use vstd::prelude::*;
use crate::edges::EdgeView;
use crate::sequences::{lemma_filter_all, lemma_filter_then_map, lemma_place_of_kept};

verus! {

/// A directed edge between two nodes, each given by its index.
pub struct Link<W> {
    pub source: int,
    pub target: int,
    pub weight: W,
}

/// The largest number of nodes, and of edges, that a graph can hold: its
/// indices are `u32`, and the greatest `u32` is kept for "no index".
pub open spec fn capacity() -> int {
    u32::MAX as int
}

/// A graph is well formed when it is within its capacity and each edge ends
/// in nodes of the graph.
pub open spec fn well_formed<N, W>(nodes: Seq<N>, links: Seq<Link<W>>) -> bool {
    &&& nodes.len() <= capacity()
    &&& links.len() <= capacity()
    &&& forall|i: int|
        0 <= i < links.len() ==> 0 <= (#[trigger] links[i]).source < nodes.len() && 0
            <= links[i].target < nodes.len()
}

/// An edge with the values of its two end nodes.
pub open spec fn edge_view<N, W>(nodes: Seq<N>, link: Link<W>) -> EdgeView<N, W> {
    EdgeView { from: nodes[link.source], to: nodes[link.target], weight: link.weight }
}

/// The edges of a graph, each with the values of its two end nodes.
pub open spec fn edge_views<N, W>(nodes: Seq<N>, links: Seq<Link<W>>) -> Seq<EdgeView<N, W>> {
    links.map_values(edge_viewer(nodes))
}

/// The step from an edge to the same edge with the values of its ends.
pub open spec fn edge_viewer<N, W>(nodes: Seq<N>) -> spec_fn(Link<W>) -> EdgeView<N, W> {
    |link: Link<W>| edge_view(nodes, link)
}

/// The test that both ends of an edge pass `keep`.
pub open spec fn ends_pass<N, W>(keep: spec_fn(N) -> bool) -> spec_fn(EdgeView<N, W>) -> bool {
    |edge: EdgeView<N, W>| keep(edge.from) && keep(edge.to)
}

/// The place that the node at `index` has among the nodes that pass
/// `keep`: as many places in as there are nodes before it that pass.
pub open spec fn place<N>(nodes: Seq<N>, keep: spec_fn(N) -> bool, index: int) -> int {
    nodes.take(index).filter(keep).len() as int
}

/// The test that both end nodes of an edge pass `keep`.
pub open spec fn link_stays<N, W>(nodes: Seq<N>, keep: spec_fn(N) -> bool) -> spec_fn(
    Link<W>,
) -> bool {
    |link: Link<W>| keep(nodes[link.source]) && keep(nodes[link.target])
}

/// The step from an edge to the same edge between the places that its end
/// nodes have among the nodes that pass `keep`.
pub open spec fn renumbered<N, W>(nodes: Seq<N>, keep: spec_fn(N) -> bool) -> spec_fn(
    Link<W>,
) -> Link<W> {
    |link: Link<W>|
        Link {
            source: place(nodes, keep, link.source),
            target: place(nodes, keep, link.target),
            weight: link.weight,
        }
}

/// The edges that stay when only the nodes that pass `keep` stay: those
/// whose two ends pass, in their old order, each between the new places of
/// its ends.
pub open spec fn kept_links<N, W>(nodes: Seq<N>, links: Seq<Link<W>>, keep: spec_fn(N) -> bool) -> Seq<
    Link<W>,
> {
    links.filter(link_stays(nodes, keep)).map_values(renumbered(nodes, keep))
}

/// The nodes that pass `keep` and the edges that stay with them make a well
/// formed graph again, and its edges are the old edges between nodes that
/// pass, with the same end nodes and weights and in the same order.
pub proof fn lemma_kept_graph<N, W>(nodes: Seq<N>, links: Seq<Link<W>>, keep: spec_fn(N) -> bool)
    requires
        well_formed(nodes, links),
    ensures
        well_formed(nodes.filter(keep), kept_links(nodes, links, keep)),
        edge_views(nodes.filter(keep), kept_links(nodes, links, keep)) == edge_views(
            nodes,
            links,
        ).filter(ends_pass(keep)),
{
    let stays = link_stays::<N, W>(nodes, keep);
    let left = links.filter(stays);
    let kept = kept_links(nodes, links, keep);
    let after = nodes.filter(keep);
    nodes.lemma_filter_len(keep);
    links.lemma_filter_len(stays);
    assert forall|k: int| 0 <= k < left.len() implies {
        &&& 0 <= (#[trigger] kept[k]).source < after.len()
        &&& 0 <= kept[k].target < after.len()
        &&& edge_view(after, kept[k]) == edge_view(nodes, left[k])
    } by {
        let link = left[k];
        assert(left.contains(link));
        links.lemma_filter_contains_rev(stays, link);
        links.lemma_filter_pred(stays, k);
        let at = choose|at: int| 0 <= at < links.len() && links[at] == link;
        assert(0 <= links[at].source < nodes.len() && 0 <= links[at].target < nodes.len());
        lemma_place_of_kept(nodes, keep, link.source);
        lemma_place_of_kept(nodes, keep, link.target);
    }
    assert(edge_views(after, kept) =~= left.map_values(edge_viewer(nodes)));
    assert forall|i: int| 0 <= i < links.len() implies stays(#[trigger] links[i]) == ends_pass(
        keep,
    )(edge_viewer(nodes)(links[i])) by {}
    lemma_filter_then_map(links, stays, edge_viewer(nodes), ends_pass(keep));
}

/// Where every node passes `keep`, every node and every edge stays as it
/// is.
pub proof fn lemma_all_kept<N, W>(nodes: Seq<N>, links: Seq<Link<W>>, keep: spec_fn(N) -> bool)
    requires
        well_formed(nodes, links),
        forall|i: int| 0 <= i < nodes.len() ==> keep(#[trigger] nodes[i]),
    ensures
        nodes.filter(keep) == nodes,
        kept_links(nodes, links, keep) == links,
{
    lemma_filter_all(nodes, keep);
    let stays = link_stays::<N, W>(nodes, keep);
    assert forall|i: int| 0 <= i < links.len() implies stays(#[trigger] links[i]) by {
        assert(0 <= links[i].source < nodes.len() && 0 <= links[i].target < nodes.len());
    }
    lemma_filter_all(links, stays);
    assert forall|i: int| 0 <= i < links.len() implies renumbered::<N, W>(nodes, keep)(
        #[trigger] links[i],
    ) == links[i] by {
        assert(0 <= links[i].source < nodes.len() && 0 <= links[i].target < nodes.len());
        lemma_filter_all(nodes.take(links[i].source), keep);
        lemma_filter_all(nodes.take(links[i].target), keep);
    }
    assert(kept_links(nodes, links, keep) =~= links);
}

} // verus!
