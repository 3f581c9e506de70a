//! The edges of a graph, each with copies of its two end nodes.

use vstd::prelude::*;

verus! {

/// A directed edge.
#[derive(Debug)]
pub struct Edge<N, E> {
    pub from: N,
    pub to: N,
    pub weight: E,
}

/// The value of an [`Edge`]: the values of its two ends, and its weight.
pub struct EdgeView<N, E> {
    pub from: N,
    pub to: N,
    pub weight: E,
}

impl<N: DeepView, E> DeepView for Edge<N, E> {
    type V = EdgeView<N::V, E>;

    open spec fn deep_view(&self) -> EdgeView<N::V, E> {
        EdgeView { from: self.from.deep_view(), to: self.to.deep_view(), weight: self.weight }
    }
}

/// The directed edges in a graph.
#[derive(Debug)]
pub struct Edges<N, E>(Vec<Edge<N, E>>);

impl<N, E> View for Edges<N, E> {
    type V = Seq<Edge<N, E>>;

    closed spec fn view(&self) -> Seq<Edge<N, E>> {
        self.0@
    }
}

impl<N: DeepView, E> DeepView for Edges<N, E> {
    type V = Seq<EdgeView<N::V, E>>;

    open spec fn deep_view(&self) -> Seq<EdgeView<N::V, E>> {
        Seq::new(self@.len(), |i: int| self@[i].deep_view())
    }
}

impl<N, E> Edges<N, E> {
    /// Wraps a list of edges.
    pub fn new(edges: Vec<Edge<N, E>>) -> (wrapped: Edges<N, E>)
        ensures
            wrapped@ == edges@,
    {
        Edges(edges)
    }

    /// Converts the edges into its inner representation.
    pub fn into_inner(self) -> (edges: Vec<Edge<N, E>>)
        ensures
            edges@ == self@,
    {
        self.0
    }
}

} // verus!
