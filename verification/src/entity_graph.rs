//! The entity graph: one node for each entity, and one edge for each field
//! whose type names an entity.

use vstd::prelude::*;
use petgraph::graph::DiGraph;
use crate::digraph::{
    entity_graph_add_edge, entity_graph_add_node, entity_graph_clone, entity_graph_edge_count,
    entity_graph_edge_endpoints, entity_graph_edge_weight, entity_graph_links, entity_graph_new,
    entity_graph_node, entity_graph_node_count, entity_graph_nodes,
};
use crate::edges::{Edge, EdgeView, Edges};
use crate::graph::{
    capacity, edge_view, edge_views, ends_pass, kept_links, lemma_all_kept, lemma_kept_graph,
    link_stays, place, renumbered, well_formed, Link,
};
use crate::lookup::{is_first, lemma_resolve_found, lemma_resolve_none, resolve};
use crate::sequences::{lemma_filter_holds_what_passes, lemma_place_of_kept};
use crate::model::{contains_entity, Cardinality, Entity, EntityView, FieldView};

verus! {

/// The names of a list of entities.
pub open spec fn entity_names(nodes: Seq<EntityView>) -> Seq<Seq<char>> {
    nodes.map_values(|node: EntityView| node.name)
}

/// The edge that a field of the entity at `source` induces: one to the first
/// entity that the field's type names, and none if it names no entity.
pub open spec fn field_link(nodes: Seq<EntityView>, source: int, field: FieldView) -> Option<
    Link<Cardinality>,
> {
    match resolve(entity_names(nodes), field.ty) {
        Some(target) => Some(
            Link { source, target, weight: Cardinality::of_collection(field.is_collection) },
        ),
        None => None,
    }
}

/// The edges that the first `count` fields of the entity at `source` induce,
/// in the order of the fields.
pub open spec fn links_of_fields(nodes: Seq<EntityView>, source: int, count: int) -> Seq<
    Link<Cardinality>,
>
    decreases count,
{
    if count <= 0 {
        Seq::empty()
    } else {
        let before = links_of_fields(nodes, source, count - 1);
        match field_link(nodes, source, nodes[source].fields[count - 1]) {
            Some(link) => before.push(link),
            None => before,
        }
    }
}

/// The edges that the first `count` entities induce, in the order of the
/// entities.
pub open spec fn links_of_entities(nodes: Seq<EntityView>, count: int) -> Seq<Link<Cardinality>>
    decreases count,
{
    if count <= 0 {
        Seq::empty()
    } else {
        links_of_entities(nodes, count - 1) + links_of_fields(
            nodes,
            count - 1,
            nodes[count - 1].fields.len() as int,
        )
    }
}

/// The edges of the graph of `nodes`: for each entity in turn, and for each
/// of its fields in turn, the edge that the field induces.
pub open spec fn entity_links(nodes: Seq<EntityView>) -> Seq<Link<Cardinality>> {
    links_of_entities(nodes, nodes.len() as int)
}

/// More fields induce no fewer edges.
pub proof fn lemma_links_of_fields_grow(nodes: Seq<EntityView>, source: int, a: int, b: int)
    requires
        a <= b,
    ensures
        links_of_fields(nodes, source, a).len() <= links_of_fields(nodes, source, b).len(),
    decreases b - a,
{
    if a < b {
        lemma_links_of_fields_grow(nodes, source, a, b - 1);
    }
}

/// More entities induce no fewer edges.
pub proof fn lemma_links_of_entities_grow(nodes: Seq<EntityView>, a: int, b: int)
    requires
        a <= b,
    ensures
        links_of_entities(nodes, a).len() <= links_of_entities(nodes, b).len(),
    decreases b - a,
{
    if a < b {
        lemma_links_of_entities_grow(nodes, a, b - 1);
    }
}

/// Each induced edge starts at an entity of the list and ends at one.
pub proof fn lemma_links_of_fields_in_range(nodes: Seq<EntityView>, source: int, count: int)
    requires
        0 <= source < nodes.len(),
    ensures
        forall|i: int|
            0 <= i < links_of_fields(nodes, source, count).len() ==> {
                &&& (#[trigger] links_of_fields(nodes, source, count)[i]).source == source
                &&& 0 <= links_of_fields(nodes, source, count)[i].target < nodes.len()
            },
    decreases count,
{
    if count > 0 {
        lemma_links_of_fields_in_range(nodes, source, count - 1);
        let before = links_of_fields(nodes, source, count - 1);
        let now = links_of_fields(nodes, source, count);
        let names = entity_names(nodes);
        let field = nodes[source].fields[count - 1];
        if resolve(names, field.ty) is Some {
            assert(is_first(names, field.ty, resolve(names, field.ty)->0));
            assert(now == before.push(field_link(nodes, source, field)->0));
        }
        assert forall|i: int| 0 <= i < now.len() implies (#[trigger] now[i]).source == source && 0
            <= now[i].target < nodes.len() by {
            if i < before.len() {
                assert(now[i] == before[i]);
            }
        }
    }
}

/// Each induced edge starts at one of the first `count` entities and ends at
/// an entity of the list.
pub proof fn lemma_links_of_entities_in_range(nodes: Seq<EntityView>, count: int)
    requires
        count <= nodes.len(),
    ensures
        forall|i: int|
            0 <= i < links_of_entities(nodes, count).len() ==> {
                &&& 0 <= (#[trigger] links_of_entities(nodes, count)[i]).source < count
                &&& 0 <= links_of_entities(nodes, count)[i].target < nodes.len()
            },
    decreases count,
{
    if count > 0 {
        lemma_links_of_entities_in_range(nodes, count - 1);
        lemma_links_of_fields_in_range(nodes, count - 1, nodes[count - 1].fields.len() as int);
        let before = links_of_entities(nodes, count - 1);
        let added = links_of_fields(nodes, count - 1, nodes[count - 1].fields.len() as int);
        let now = links_of_entities(nodes, count);
        assert forall|i: int| 0 <= i < now.len() implies 0 <= (#[trigger] now[i]).source < count
            && 0 <= now[i].target < nodes.len() by {
            if i < before.len() {
                assert(now[i] == before[i]);
            } else {
                assert(now[i] == added[i - before.len()]);
            }
        }
    }
}

/// The test that an entity is none of `removed`.
pub open spec fn stays(removed: Seq<EntityView>) -> spec_fn(EntityView) -> bool {
    |node: EntityView| !removed.contains(node)
}

/// A directed graph of entities. An edge stands for a field of its source
/// whose type names its target.
#[derive(Debug)]
pub struct EntityGraph(DiGraph<Entity, Cardinality>);

impl EntityGraph {
    /// The entities of the graph, in node order.
    pub closed spec fn node_views(&self) -> Seq<EntityView> {
        entity_graph_nodes(self.0)
    }

    /// The edges of the graph, in edge order.
    pub closed spec fn links(&self) -> Seq<Link<Cardinality>> {
        entity_graph_links(self.0)
    }

    /// The edges of the graph, each with its two end entities.
    pub open spec fn edge_views(&self) -> Seq<EdgeView<EntityView, Cardinality>> {
        edge_views(self.node_views(), self.links())
    }

    /// Every graph that this library hands out is well formed.
    pub open spec fn wf(&self) -> bool {
        well_formed(self.node_views(), self.links())
    }

    #[verifier::type_invariant]
    spec fn inv(&self) -> bool {
        self.wf()
    }

    /// Attempts to create an entity graph from a list of entities. Each
    /// entity becomes a node, also where two bear the same name. Each field
    /// whose type is the name of an entity becomes an edge: it leaves the
    /// node of the entity that has the field and ends in the first node
    /// that bears the name, with the cardinality `Many` for a collection and
    /// `One` for any other field. A field whose type names no entity is
    /// passed over. A list without entities gives no graph, and nor does a
    /// list whose graph would exceed the capacity of its index type.
    pub fn try_new(entities: &[Entity]) -> (graph: Option<EntityGraph>)
        ensures
            graph is Some <==> 0 < entities.len() <= capacity() && entity_links(
                entities.deep_view(),
            ).len() <= capacity(),
            graph is Some ==> graph->0.node_views() == entities.deep_view() && graph->0.links()
                == entity_links(entities.deep_view()),
            graph is Some ==> graph->0.wf(),
    {
        let ghost all = entities.deep_view();
        if entities.len() == 0 || entities.len() > u32::MAX as usize {
            return None;
        }
        let mut graph = entity_graph_new();
        let mut i: usize = 0;
        while i < entities.len()
            invariant
                i <= entities.len() <= capacity(),
                all == entities.deep_view(),
                entity_graph_nodes(graph) == all.take(i as int),
                entity_graph_links(graph) == Seq::<Link<Cardinality>>::empty(),
            decreases entities.len() - i,
        {
            let _ = entity_graph_add_node(&mut graph, entities[i].clone());
            assert(all.take(i as int).push(all[i as int]) =~= all.take(i + 1));
            i = i + 1;
        }
        assert(all.take(entities.len() as int) =~= all);
        let mut i: usize = 0;
        while i < entities.len()
            invariant
                i <= entities.len() <= capacity(),
                all == entities.deep_view(),
                entity_graph_nodes(graph) == all,
                entity_graph_links(graph) == links_of_entities(all, i as int),
                entity_graph_links(graph).len() <= capacity(),
            decreases entities.len() - i,
        {
            let entity = &entities[i];
            let ghost before = links_of_entities(all, i as int);
            let mut j: usize = 0;
            while j < entity.fields.len()
                invariant
                    i < entities.len() <= capacity(),
                    all == entities.deep_view(),
                    entity == entities[i as int],
                    j <= entity.fields.len(),
                    before == links_of_entities(all, i as int),
                    entity_graph_nodes(graph) == all,
                    entity_graph_links(graph) == before + links_of_fields(all, i as int, j as int),
                    entity_graph_links(graph).len() <= capacity(),
                decreases entity.fields.len() - j,
            {
                let field = &entity.fields[j];
                assert(all[i as int].fields[j as int] == field@);
                match find_entity(&graph, &field.ty) {
                    Some(target) => {
                        if entity_graph_edge_count(&graph) >= u32::MAX as usize {
                            proof {
                                lemma_links_of_fields_grow(
                                    all,
                                    i as int,
                                    j + 1,
                                    entity.fields.len() as int,
                                );
                                lemma_links_of_entities_grow(all, i + 1, all.len() as int);
                            }
                            return None;
                        }
                        let weight = if field.is_collection {
                            Cardinality::Many
                        } else {
                            Cardinality::One
                        };
                        entity_graph_add_edge(&mut graph, i, target, weight);
                        assert(entity_graph_links(graph) =~= before + links_of_fields(
                            all,
                            i as int,
                            j + 1,
                        ));
                    },
                    None => {},
                }
                j = j + 1;
            }
            i = i + 1;
        }
        proof {
            lemma_links_of_entities_in_range(all, all.len() as int);
        }
        Some(EntityGraph(graph))
    }

    /// The number of nodes.
    pub fn node_count(&self) -> (count: usize)
        ensures
            count == self.node_views().len(),
    {
        entity_graph_node_count(&self.0)
    }

    /// The number of edges.
    pub fn edge_count(&self) -> (count: usize)
        ensures
            count == self.links().len(),
    {
        entity_graph_edge_count(&self.0)
    }

    /// The entity at a node.
    pub fn node(&self, index: usize) -> (entity: &Entity)
        requires
            index < self.node_views().len(),
        ensures
            entity@ == self.node_views()[index as int],
    {
        proof {
            use_type_invariant(&*self);
        }
        entity_graph_node(&self.0, index).unwrap()
    }

    /// The two end nodes of an edge, source first, and its cardinality.
    pub fn edge(&self, index: usize) -> (edge: (usize, usize, Cardinality))
        requires
            index < self.links().len(),
        ensures
            edge.0 == self.links()[index as int].source,
            edge.1 == self.links()[index as int].target,
            edge.2 == self.links()[index as int].weight,
            edge.0 < self.node_views().len(),
            edge.1 < self.node_views().len(),
    {
        proof {
            use_type_invariant(&*self);
        }
        let ends = entity_graph_edge_endpoints(&self.0, index).unwrap();
        let weight = entity_graph_edge_weight(&self.0, index).unwrap();
        (ends.0, ends.1, weight)
    }

    /// Filters out of the graph every node whose entity equals one of
    /// `entities`, together with the edges that touch such a node. The nodes
    /// that stay keep their order, and so do the edges that stay, each with
    /// its end nodes and its weight. Entities that are not in the graph are
    /// passed over, and a graph that holds none of `entities` is left as it
    /// is.
    pub fn filter_entities(&mut self, entities: &[Entity])
        ensures
            final(self).node_views() == old(self).node_views().filter(stays(entities.deep_view())),
            final(self).links() == kept_links(
                old(self).node_views(),
                old(self).links(),
                stays(entities.deep_view()),
            ),
            final(self).edge_views() == old(self).edge_views().filter(
                ends_pass(stays(entities.deep_view())),
            ),
            final(self).wf(),
    {
        proof {
            use_type_invariant(&*self);
        }
        let ghost keep = stays(entities.deep_view());
        let ghost nodes = self.node_views();
        let ghost links = self.links();
        let ghost link_keep = link_stays::<EntityView, Cardinality>(nodes, keep);
        let ghost renumber = renumbered::<EntityView, Cardinality>(nodes, keep);
        let node_count = entity_graph_node_count(&self.0);
        let edge_count = entity_graph_edge_count(&self.0);
        let mut fresh = entity_graph_new();
        // The new index of each node that stays.
        let mut places: Vec<Option<usize>> = Vec::new();
        let mut i: usize = 0;
        while i < node_count
            invariant
                i <= node_count == nodes.len() <= capacity(),
                keep == stays(entities.deep_view()),
                nodes == entity_graph_nodes(self.0),
                entity_graph_nodes(fresh) == nodes.take(i as int).filter(keep),
                entity_graph_links(fresh) == Seq::<Link<Cardinality>>::empty(),
                places.len() == i,
                forall|j: int|
                    0 <= j < i ==> #[trigger] places[j] == if keep(nodes[j]) {
                        Some(place(nodes, keep, j) as usize)
                    } else {
                        None
                    },
            decreases node_count - i,
        {
            let node = entity_graph_node(&self.0, i).unwrap();
            proof {
                assert(nodes.take(i + 1) =~= nodes.take(i as int).push(nodes[i as int]));
                nodes.take(i as int).lemma_filter_push(nodes[i as int], keep);
                nodes.take(i as int).lemma_filter_len(keep);
            }
            if contains_entity(entities, node) {
                places.push(None);
            } else {
                let index = entity_graph_add_node(&mut fresh, node.clone());
                places.push(Some(index));
            }
            i = i + 1;
        }
        assert(nodes.take(node_count as int) =~= nodes);
        let mut k: usize = 0;
        while k < edge_count
            invariant
                k <= edge_count == links.len() <= capacity(),
                node_count == nodes.len() <= capacity(),
                nodes == entity_graph_nodes(self.0),
                links == entity_graph_links(self.0),
                well_formed(nodes, links),
                link_keep == link_stays::<EntityView, Cardinality>(nodes, keep),
                renumber == renumbered::<EntityView, Cardinality>(nodes, keep),
                entity_graph_nodes(fresh) == nodes.filter(keep),
                entity_graph_links(fresh) == links.take(k as int).filter(link_keep).map_values(
                    renumber,
                ),
                places.len() == node_count,
                forall|j: int|
                    0 <= j < node_count ==> #[trigger] places[j] == if keep(nodes[j]) {
                        Some(place(nodes, keep, j) as usize)
                    } else {
                        None
                    },
            decreases edge_count - k,
        {
            let ends = entity_graph_edge_endpoints(&self.0, k).unwrap();
            let weight = entity_graph_edge_weight(&self.0, k).unwrap();
            let ghost link = links[k as int];
            let ghost before = links.take(k as int);
            proof {
                assert(links.take(k + 1) =~= before.push(link));
                before.lemma_filter_push(link, link_keep);
                before.lemma_filter_len(link_keep);
                nodes.lemma_filter_len(keep);
                assert(0 <= link.source < nodes.len() && 0 <= link.target < nodes.len());
            }
            match (places[ends.0], places[ends.1]) {
                (Some(source), Some(target)) => {
                    proof {
                        lemma_place_of_kept(nodes, keep, link.source);
                        lemma_place_of_kept(nodes, keep, link.target);
                    }
                    entity_graph_add_edge(&mut fresh, source, target, weight);
                    assert(before.filter(link_keep).push(link).map_values(renumber)
                        =~= before.filter(link_keep).map_values(renumber).push(renumber(link)));
                },
                _ => {},
            }
            k = k + 1;
        }
        proof {
            assert(links.take(edge_count as int) =~= links);
            lemma_kept_graph(nodes, links, keep);
        }
        self.0 = fresh;
    }

    /// Gets all of the nodes in the graph.
    pub fn nodes(&self) -> (nodes: Vec<Entity>)
        ensures
            nodes.deep_view() == self.node_views(),
    {
        let count = self.node_count();
        let mut nodes: Vec<Entity> = Vec::new();
        let mut i: usize = 0;
        while i < count
            invariant
                i <= count == self.node_views().len(),
                nodes.len() == i,
                forall|k: int| 0 <= k < i ==> nodes[k]@ == self.node_views()[k],
            decreases count - i,
        {
            nodes.push(self.node(i).clone());
            i = i + 1;
        }
        assert(nodes.deep_view() =~= self.node_views());
        nodes
    }

    /// Gets the directed edges of the graph, each with copies of its two end
    /// entities.
    pub fn edges(&self) -> (edges: Edges<Entity, Cardinality>)
        ensures
            edges.deep_view() == self.edge_views(),
    {
        let count = self.edge_count();
        let mut edges: Vec<Edge<Entity, Cardinality>> = Vec::new();
        let mut i: usize = 0;
        while i < count
            invariant
                i <= count == self.links().len(),
                edges.len() == i,
                forall|k: int|
                    0 <= k < i ==> (#[trigger] edges[k]).deep_view() == edge_view(
                        self.node_views(),
                        self.links()[k],
                    ),
            decreases count - i,
        {
            let (source, target, weight) = self.edge(i);
            let from = self.node(source).clone();
            let to = self.node(target).clone();
            edges.push(Edge { from, to, weight });
            i = i + 1;
        }
        let edges = Edges::new(edges);
        assert(edges.deep_view() =~= self.edge_views());
        edges
    }
}

impl AsRef<DiGraph<Entity, Cardinality>> for EntityGraph {
    fn as_ref(&self) -> (graph: &DiGraph<Entity, Cardinality>)
        ensures
            entity_graph_nodes(*graph) == self.node_views(),
            entity_graph_links(*graph) == self.links(),
    {
        &self.0
    }
}

impl Clone for EntityGraph {
    fn clone(&self) -> (copy: EntityGraph)
        ensures
            copy.node_views() == self.node_views(),
            copy.links() == self.links(),
    {
        proof {
            use_type_invariant(&*self);
        }
        EntityGraph(entity_graph_clone(&self.0))
    }
}

/// The test that an edge is `link`.
pub open spec fn is_link(link: Link<Cardinality>) -> spec_fn(Link<Cardinality>) -> bool {
    |other: Link<Cardinality>| other == link
}

/// The test that an edge leaves the node at `source`.
pub open spec fn leaves(source: int) -> spec_fn(Link<Cardinality>) -> bool {
    |link: Link<Cardinality>| link.source == source
}

/// The test that a field has the type `ty` and induces edges of the
/// cardinality `weight`.
pub open spec fn refers_to(ty: Seq<char>, weight: Cardinality) -> spec_fn(FieldView) -> bool {
    |field: FieldView| field.ty == ty && Cardinality::of_collection(field.is_collection) == weight
}

/// The test that the type of a field is one of `names`.
pub open spec fn names_one_of(names: Seq<Seq<char>>) -> spec_fn(FieldView) -> bool {
    |field: FieldView| names.contains(field.ty)
}

/// Whether, among the fields of the entity at `source`, those that pass
/// `fields_pass` are just those whose edge passes `links_pass`.
spec fn fields_match_links(
    nodes: Seq<EntityView>,
    source: int,
    links_pass: spec_fn(Link<Cardinality>) -> bool,
    fields_pass: spec_fn(FieldView) -> bool,
) -> bool {
    forall|c: int|
        0 <= c < nodes[source].fields.len() ==> (fields_pass(#[trigger] nodes[source].fields[c])
            <==> match field_link(nodes, source, nodes[source].fields[c]) {
            Some(link) => links_pass(link),
            None => false,
        })
}

/// Among the edges of the first `count` fields of an entity, as many pass
/// as there are fields among them whose edge passes.
proof fn lemma_count_links_of_fields(
    nodes: Seq<EntityView>,
    source: int,
    count: int,
    links_pass: spec_fn(Link<Cardinality>) -> bool,
    fields_pass: spec_fn(FieldView) -> bool,
)
    requires
        0 <= source < nodes.len(),
        0 <= count <= nodes[source].fields.len(),
        fields_match_links(nodes, source, links_pass, fields_pass),
    ensures
        links_of_fields(nodes, source, count).filter(links_pass).len() == nodes[source].fields.take(
            count,
        ).filter(fields_pass).len(),
    decreases count,
{
    let fields = nodes[source].fields;
    if count <= 0 {
        reveal(Seq::filter);
        assert(fields.take(count) =~= Seq::<FieldView>::empty());
        assert(links_of_fields(nodes, source, count) =~= Seq::<Link<Cardinality>>::empty());
    } else {
        lemma_count_links_of_fields(nodes, source, count - 1, links_pass, fields_pass);
        let field = fields[count - 1];
        let before = links_of_fields(nodes, source, count - 1);
        assert(fields.take(count) =~= fields.take(count - 1).push(field));
        fields.take(count - 1).lemma_filter_push(field, fields_pass);
        match field_link(nodes, source, field) {
            Some(link) => {
                before.lemma_filter_push(link, links_pass);
            },
            None => {},
        }
    }
}

/// None of the edges of an entity passes a test that only edges of another
/// entity pass.
proof fn lemma_no_links_of_others(
    nodes: Seq<EntityView>,
    source: int,
    other: int,
    links_pass: spec_fn(Link<Cardinality>) -> bool,
)
    requires
        0 <= other < nodes.len(),
        source != other,
        forall|link: Link<Cardinality>| #[trigger] links_pass(link) ==> link.source == source,
    ensures
        links_of_fields(nodes, other, nodes[other].fields.len() as int).filter(links_pass).len()
            == 0,
{
    let links = links_of_fields(nodes, other, nodes[other].fields.len() as int);
    lemma_links_of_fields_in_range(nodes, other, nodes[other].fields.len() as int);
    let passing = links.filter(links_pass);
    if passing.len() > 0 {
        links.lemma_filter_pred(links_pass, 0);
        assert(passing.contains(passing[0]));
        links.lemma_filter_contains_rev(links_pass, passing[0]);
        let at = choose|at: int| 0 <= at < links.len() && links[at] == passing[0];
        assert(links[at].source == other);
    }
}

/// Among the edges of the first `count` entities, as many pass a test that
/// only edges of the entity at `source` pass as that entity has fields
/// whose edge passes.
proof fn lemma_count_links_of_entities(
    nodes: Seq<EntityView>,
    count: int,
    source: int,
    links_pass: spec_fn(Link<Cardinality>) -> bool,
    fields_pass: spec_fn(FieldView) -> bool,
)
    requires
        0 <= source < nodes.len(),
        0 <= count <= nodes.len(),
        forall|link: Link<Cardinality>| #[trigger] links_pass(link) ==> link.source == source,
        fields_match_links(nodes, source, links_pass, fields_pass),
    ensures
        links_of_entities(nodes, count).filter(links_pass).len() == if source < count {
            nodes[source].fields.filter(fields_pass).len()
        } else {
            0
        },
    decreases count,
{
    if count <= 0 {
        reveal(Seq::filter);
        assert(links_of_entities(nodes, count) =~= Seq::<Link<Cardinality>>::empty());
    } else {
        lemma_count_links_of_entities(nodes, count - 1, source, links_pass, fields_pass);
        let before = links_of_entities(nodes, count - 1);
        let added = links_of_fields(nodes, count - 1, nodes[count - 1].fields.len() as int);
        Seq::filter_distributes_over_add(before, added, links_pass);
        if count - 1 == source {
            lemma_count_links_of_fields(
                nodes,
                source,
                nodes[source].fields.len() as int,
                links_pass,
                fields_pass,
            );
            assert(nodes[source].fields.take(nodes[source].fields.len() as int)
                =~= nodes[source].fields);
        } else {
            lemma_no_links_of_others(nodes, source, count - 1, links_pass);
        }
    }
}

/// For any two entities `e1` and `e2` of a list, `e2` the first to bear its
/// name: the graph of the list has as many edges from `e1` to `e2` with the
/// cardinality `weight` as `e1` has fields of the type `e2.name` that induce
/// this cardinality. So one field of `e1` that is no collection and has the
/// type `e2.name` gives exactly one edge from `e1` to `e2` labelled `One`,
/// and one that is a collection gives exactly one labelled `Many`.
pub proof fn lemma_edges_count_fields(
    nodes: Seq<EntityView>,
    e1: int,
    e2: int,
    weight: Cardinality,
)
    requires
        0 <= e1 < nodes.len(),
        is_first(entity_names(nodes), nodes[e2].name, e2),
    ensures
        entity_links(nodes).filter(is_link(Link { source: e1, target: e2, weight })).len()
            == nodes[e1].fields.filter(refers_to(nodes[e2].name, weight)).len(),
{
    let names = entity_names(nodes);
    let wanted = Link { source: e1, target: e2, weight };
    assert forall|c: int| 0 <= c < nodes[e1].fields.len() implies (refers_to(
        nodes[e2].name,
        weight,
    )(#[trigger] nodes[e1].fields[c]) <==> match field_link(nodes, e1, nodes[e1].fields[c]) {
        Some(link) => is_link(wanted)(link),
        None => false,
    }) by {
        let field = nodes[e1].fields[c];
        if field.ty == nodes[e2].name {
            lemma_resolve_found(names, field.ty, e2);
        } else if resolve(names, field.ty) is Some {
            assert(is_first(names, field.ty, resolve(names, field.ty)->0));
        }
    }
    lemma_count_links_of_entities(
        nodes,
        nodes.len() as int,
        e1,
        is_link(wanted),
        refers_to(nodes[e2].name, weight),
    );
}

/// The graph of a list of entities has as many edges that leave an entity
/// as the entity has fields whose type is the name of an entity of the
/// list. So a field whose type names no entity gives no edge.
pub proof fn lemma_only_named_types_give_edges(nodes: Seq<EntityView>, source: int)
    requires
        0 <= source < nodes.len(),
    ensures
        entity_links(nodes).filter(leaves(source)).len() == nodes[source].fields.filter(
            names_one_of(entity_names(nodes)),
        ).len(),
{
    let names = entity_names(nodes);
    assert forall|c: int| 0 <= c < nodes[source].fields.len() implies (names_one_of(names)(
        #[trigger] nodes[source].fields[c],
    ) <==> match field_link(nodes, source, nodes[source].fields[c]) {
        Some(link) => leaves(source)(link),
        None => false,
    }) by {
        lemma_resolve_none(names, nodes[source].fields[c].ty);
    }
    lemma_count_links_of_entities(
        nodes,
        nodes.len() as int,
        source,
        leaves(source),
        names_one_of(names),
    );
}

/// A field whose type is the name of no entity induces no edge, and a field
/// that induces no edge has a type that is the name of no entity.
pub proof fn lemma_unnamed_type_gives_no_edge(
    nodes: Seq<EntityView>,
    source: int,
    field: FieldView,
)
    ensures
        field_link(nodes, source, field) is None <==> !entity_names(nodes).contains(field.ty),
{
    lemma_resolve_none(entity_names(nodes), field.ty);
}

/// Filtering removes exactly the entities of the removal list and the
/// edges that touch one of them: what is left holds none of the list, and
/// every other node and every edge between other nodes is still there. That
/// holds of every removal list, also of one that holds more than the graph
/// does.
pub proof fn lemma_filter_removes_exactly(
    nodes: Seq<EntityView>,
    links: Seq<Link<Cardinality>>,
    removed: Seq<EntityView>,
)
    requires
        well_formed(nodes, links),
    ensures
        forall|node: EntityView| #[trigger]
            nodes.filter(stays(removed)).contains(node) <==> nodes.contains(node)
                && !removed.contains(node),
        forall|edge: EdgeView<EntityView, Cardinality>| #[trigger]
            edge_views(nodes.filter(stays(removed)), kept_links(nodes, links, stays(removed)))
                .contains(edge) <==> edge_views(nodes, links).contains(edge) && !removed.contains(
                edge.from,
            ) && !removed.contains(edge.to),
{
    let keep = stays(removed);
    let views = edge_views(nodes, links);
    lemma_kept_graph(nodes, links, keep);
    assert forall|node: EntityView| #[trigger]
        nodes.filter(keep).contains(node) <==> nodes.contains(node) && !removed.contains(
            node,
        ) by {
        lemma_filter_holds_what_passes(nodes, keep, node);
    }
    assert forall|edge: EdgeView<EntityView, Cardinality>| #[trigger]
        views.filter(ends_pass(keep)).contains(edge) <==> views.contains(edge) && !removed.contains(
            edge.from,
        ) && !removed.contains(edge.to) by {
        lemma_filter_holds_what_passes(views, ends_pass(keep), edge);
    }
}

/// Filtering with a removal list that holds no entity of the graph leaves
/// every node and every edge as it is.
pub proof fn lemma_filter_by_strangers(
    nodes: Seq<EntityView>,
    links: Seq<Link<Cardinality>>,
    removed: Seq<EntityView>,
)
    requires
        well_formed(nodes, links),
        forall|i: int| 0 <= i < nodes.len() ==> !removed.contains(#[trigger] nodes[i]),
    ensures
        nodes.filter(stays(removed)) == nodes,
        kept_links(nodes, links, stays(removed)) == links,
{
    lemma_all_kept(nodes, links, stays(removed));
}

/// The first node of the graph that bears `name`.
fn find_entity(graph: &DiGraph<Entity, Cardinality>, name: &String) -> (found: Option<usize>)
    requires
        entity_graph_nodes(*graph).len() <= capacity(),
    ensures
        match found {
            Some(index) => resolve(entity_names(entity_graph_nodes(*graph)), name@) == Some(
                index as int,
            ),
            None => resolve(entity_names(entity_graph_nodes(*graph)), name@) is None,
        },
{
    let ghost names = entity_names(entity_graph_nodes(*graph));
    let count = entity_graph_node_count(graph);
    let mut k: usize = 0;
    while k < count
        invariant
            k <= count == names.len(),
            count <= capacity(),
            names == entity_names(entity_graph_nodes(*graph)),
            forall|earlier: int| 0 <= earlier < k ==> names[earlier] != name@,
        decreases count - k,
    {
        let node = entity_graph_node(graph, k).unwrap();
        if node.name == *name {
            proof {
                lemma_resolve_found(names, name@, k as int);
            }
            return Some(k);
        }
        k = k + 1;
    }
    proof {
        lemma_resolve_none(names, name@);
        if names.contains(name@) {
            let at = choose|at: int| 0 <= at < names.len() && names[at] == name@;
            assert(names[at] != name@);
        }
    }
    None
}

} // verus!
