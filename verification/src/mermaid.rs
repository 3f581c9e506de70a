//! Diagrams as text: a class diagram of an entity graph, and a flowchart of
//! a service graph.
//!
//! A diagram is a header line followed by one text for each node, then one
//! for each edge, then one for each orphan, each group in the order of the
//! graph. The blocks of all entities come before the lines of all edges: no
//! edge stands between two blocks. A diagram is a function of the graph
//! alone, so the same graph always gives the same text.

use vstd::prelude::*;
use crate::call::MicroserviceCall;
use crate::edges::EdgeView;
use crate::entity_graph::{entity_links, EntityGraph};
use crate::graph::{edge_view, edge_views, Link};
use crate::model::{Cardinality, Entity, EntityView, Field, FieldView, MicroserviceView};
use crate::service_graph::{link_of, MicroserviceGraph};

verus! {

/// The text of a diagram: the header on a line of its own, then the texts
/// of the nodes, of the edges and of the orphans.
pub open spec fn diagram_text(
    header: Seq<char>,
    nodes: Seq<Seq<char>>,
    edges: Seq<Seq<char>>,
    orphans: Seq<Seq<char>>,
) -> Seq<char> {
    header + "\n"@ + nodes.flatten() + edges.flatten() + orphans.flatten()
}

/// The line of a field in the block of its entity: the type, written as a
/// list where the field is a collection, and the name.
pub open spec fn field_line(field: FieldView) -> Seq<char> {
    if field.is_collection {
        "+List<"@ + field.ty + "> "@ + field.name + "\n"@
    } else {
        "+"@ + field.ty + " "@ + field.name + "\n"@
    }
}

/// The lines of a list of fields.
pub open spec fn field_lines(fields: Seq<FieldView>) -> Seq<char> {
    fields.map_values(|field: FieldView| field_line(field)).flatten()
}

/// The block of an entity: its name, its storage type and its fields.
pub open spec fn entity_block(entity: EntityView) -> Seq<char> {
    "class "@ + entity.name + " {\n<<"@ + entity.ty.label() + ">>\n"@ + field_lines(entity.fields)
        + "}\n"@
}

/// The line of an edge between two entities.
pub open spec fn relation_line(edge: EdgeView<EntityView, Cardinality>) -> Seq<char> {
    edge.from.name + " \"1\" --> \""@ + edge.weight.token() + "\" "@ + edge.to.name + "\n"@
}

/// The class diagram of an entity graph: a block for each node, then a line
/// for each edge.
pub open spec fn entity_diagram(nodes: Seq<EntityView>, links: Seq<Link<Cardinality>>) -> Seq<char> {
    diagram_text(
        "classDiagram"@,
        nodes.map_values(|entity: EntityView| entity_block(entity)),
        edge_views(nodes, links).map_values(
            |edge: EdgeView<EntityView, Cardinality>| relation_line(edge),
        ),
        Seq::empty(),
    )
}

/// The line of a call: it points from the called service to the caller.
pub open spec fn call_line(edge: EdgeView<MicroserviceView, MicroserviceCall>) -> Seq<char> {
    edge.to.name + " -->|\""@ + edge.weight.label_text() + "\"| "@ + edge.from.name + "\n"@
}

/// The line of a service that neither calls nor is called.
pub open spec fn orphan_line(service: MicroserviceView) -> Seq<char> {
    "N/A --> "@ + service.name + "\n"@
}

/// An edge as a diagram draws it: the places of its two end nodes among
/// the nodes of the graph, and its line.
#[derive(Debug)]
pub struct EdgeLine {
    pub from: usize,
    pub to: usize,
    pub line: String,
}

/// The value of an [`EdgeLine`].
pub struct EdgeLineView {
    pub from: int,
    pub to: int,
    pub line: Seq<char>,
}

impl DeepView for EdgeLine {
    type V = EdgeLineView;

    open spec fn deep_view(&self) -> EdgeLineView {
        EdgeLineView { from: self.from as int, to: self.to as int, line: self.line@ }
    }
}

/// Whether a node is an orphan: no edge leaves it and none ends in it. A
/// node whose only edge is a loop is no orphan. `ends` holds the two end
/// nodes of each edge.
pub open spec fn is_orphan(ends: Seq<(int, int)>, node: int) -> bool {
    forall|k: int| 0 <= k < ends.len() ==> (#[trigger] ends[k]).0 != node && ends[k].1 != node
}

/// Of the texts of the first `count` nodes, those of the orphans, in node
/// order.
pub open spec fn orphan_texts(ends: Seq<(int, int)>, texts: Seq<Seq<char>>, count: int) -> Seq<
    Seq<char>,
>
    decreases count,
{
    if count <= 0 {
        Seq::empty()
    } else if is_orphan(ends, count - 1) {
        orphan_texts(ends, texts, count - 1).push(texts[count - 1])
    } else {
        orphan_texts(ends, texts, count - 1)
    }
}

/// The end nodes of a list of drawn edges.
pub open spec fn drawn_ends(edges: Seq<EdgeLineView>) -> Seq<(int, int)> {
    edges.map_values(|edge: EdgeLineView| (edge.from, edge.to))
}

/// The lines of a list of drawn edges.
pub open spec fn drawn_lines(edges: Seq<EdgeLineView>) -> Seq<Seq<char>> {
    edges.map_values(|edge: EdgeLineView| edge.line)
}

/// The text of a diagram that is put together from the texts of its nodes,
/// its edges with their lines, and a text for each node that is written
/// only where the node is an orphan.
pub open spec fn graph_text(
    header: Seq<char>,
    nodes: Seq<Seq<char>>,
    edges: Seq<EdgeLineView>,
    orphans: Seq<Seq<char>>,
) -> Seq<char> {
    diagram_text(
        header,
        nodes,
        drawn_lines(edges),
        orphan_texts(drawn_ends(edges), orphans, orphans.len() as int),
    )
}

/// The end nodes of the edges of a graph.
pub open spec fn link_ends<W>(links: Seq<Link<W>>) -> Seq<(int, int)> {
    links.map_values(|link: Link<W>| (link.source, link.target))
}

/// The flowchart of a service graph: a line for each edge, then a line for
/// each service that neither calls nor is called.
pub open spec fn service_diagram(
    nodes: Seq<MicroserviceView>,
    links: Seq<Link<MicroserviceCall>>,
) -> Seq<char> {
    diagram_text(
        "graph TD"@,
        Seq::empty(),
        edge_views(nodes, links).map_values(
            |edge: EdgeView<MicroserviceView, MicroserviceCall>| call_line(edge),
        ),
        orphan_texts(
            link_ends(links),
            nodes.map_values(|service: MicroserviceView| orphan_line(service)),
            nodes.len() as int,
        ),
    )
}

/// Rendering is determined by the graph: two diagrams of one entity graph
/// have the same text.
pub proof fn lemma_entity_diagram_is_determined(
    graph: EntityGraph,
    first: MermaidString,
    second: MermaidString,
)
    requires
        first@ == entity_diagram(graph.node_views(), graph.links()),
        second@ == entity_diagram(graph.node_views(), graph.links()),
    ensures
        first@ == second@,
{
}

/// Rendering is determined by the list of entities: the diagrams of two
/// graphs that were made from one list have the same text.
pub proof fn lemma_entity_diagram_of_same_list(
    entities: Seq<EntityView>,
    first_graph: EntityGraph,
    second_graph: EntityGraph,
    first: MermaidString,
    second: MermaidString,
)
    requires
        first_graph.node_views() == entities,
        first_graph.links() == entity_links(entities),
        second_graph.node_views() == entities,
        second_graph.links() == entity_links(entities),
        first@ == entity_diagram(first_graph.node_views(), first_graph.links()),
        second@ == entity_diagram(second_graph.node_views(), second_graph.links()),
    ensures
        first@ == second@,
{
}

/// Rendering is determined by the graph: two diagrams of one service graph
/// have the same text.
pub proof fn lemma_service_diagram_is_determined(
    graph: MicroserviceGraph,
    first: MermaidString,
    second: MermaidString,
)
    requires
        first@ == service_diagram(graph.node_views(), graph.links()),
        second@ == service_diagram(graph.node_views(), graph.links()),
    ensures
        first@ == second@,
{
}

/// A graph without nodes renders as its header alone.
pub proof fn lemma_empty_diagrams()
    ensures
        entity_diagram(Seq::empty(), Seq::empty()) == "classDiagram\n"@,
        service_diagram(Seq::empty(), Seq::empty()) == "graph TD\n"@,
{
    reveal_strlit("classDiagram");
    reveal_strlit("graph TD");
    reveal_strlit("\n");
    reveal_strlit("classDiagram\n");
    reveal_strlit("graph TD\n");
    let no_text = Seq::<Seq<char>>::empty();
    assert(no_text.flatten() =~= Seq::<char>::empty());
    let no_entities = Seq::<EntityView>::empty();
    let no_services = Seq::<MicroserviceView>::empty();
    assert(no_entities.map_values(|entity: EntityView| entity_block(entity)) =~= no_text);
    assert(edge_views(no_entities, Seq::<Link<Cardinality>>::empty()).map_values(
        |edge: EdgeView<EntityView, Cardinality>| relation_line(edge),
    ) =~= no_text);
    assert(edge_views(no_services, Seq::<Link<MicroserviceCall>>::empty()).map_values(
        |edge: EdgeView<MicroserviceView, MicroserviceCall>| call_line(edge),
    ) =~= no_text);
    assert(orphan_texts(
        link_ends(Seq::<Link<MicroserviceCall>>::empty()),
        no_services.map_values(|service: MicroserviceView| orphan_line(service)),
        0,
    ) =~= no_text);
    assert(entity_diagram(Seq::empty(), Seq::empty()) =~= "classDiagram\n"@);
    assert(service_diagram(Seq::empty(), Seq::empty()) =~= "graph TD\n"@);
}

/// A mermaid string to represent a microservice communication diagram or an
/// entity diagram.
#[derive(Debug, Default, PartialEq, Eq)]
pub struct MermaidString(String);

impl View for MermaidString {
    type V = Seq<char>;

    closed spec fn view(&self) -> Seq<char> {
        self.0@
    }
}

/// Appends each of `parts` to `text`, in order.
fn append_all(text: &mut String, parts: &[String])
    ensures
        final(text)@ == old(text)@ + parts.deep_view().flatten(),
{
    let ghost start = text@;
    let ghost all = parts.deep_view();
    let mut i: usize = 0;
    while i < parts.len()
        invariant
            i <= parts.len(),
            all == parts.deep_view(),
            text@ == start + all.take(i as int).flatten(),
        decreases parts.len() - i,
    {
        text.append(parts[i].as_str());
        proof {
            all.take(i as int).lemma_flatten_push(all[i as int]);
            assert(all.take(i as int).push(all[i as int]) =~= all.take(i + 1));
            assert(text@ =~= start + all.take(i + 1).flatten());
        }
        i = i + 1;
    }
    assert(all.take(parts.len() as int) =~= all);
}

/// The line of a field.
fn write_field(field: &Field) -> (line: String)
    ensures
        line@ == field_line(field@),
{
    let mut line = String::new();
    if field.is_collection {
        line.append("+List<");
        line.append(field.ty.as_str());
        line.append("> ");
    } else {
        line.append("+");
        line.append(field.ty.as_str());
        line.append(" ");
    }
    line.append(field.name.as_str());
    line.append("\n");
    assert(line@ =~= field_line(field@));
    line
}

/// The block of an entity.
fn write_entity(entity: &Entity) -> (block: String)
    ensures
        block@ == entity_block(entity@),
{
    let mut block = String::new();
    block.append("class ");
    block.append(entity.name.as_str());
    block.append(" {\n<<");
    block.append(entity.ty.to_string().as_str());
    block.append(">>\n");
    let ghost head = block@;
    let ghost lines = entity@.fields.map_values(|field: FieldView| field_line(field));
    let mut i: usize = 0;
    while i < entity.fields.len()
        invariant
            i <= entity.fields.len(),
            lines == entity@.fields.map_values(|field: FieldView| field_line(field)),
            block@ == head + lines.take(i as int).flatten(),
        decreases entity.fields.len() - i,
    {
        let line = write_field(&entity.fields[i]);
        block.append(line.as_str());
        proof {
            assert(lines[i as int] == field_line(entity.fields[i as int]@));
            lines.take(i as int).lemma_flatten_push(lines[i as int]);
            assert(lines.take(i as int).push(lines[i as int]) =~= lines.take(i + 1));
            assert(block@ =~= head + lines.take(i + 1).flatten());
        }
        i = i + 1;
    }
    assert(lines.take(entity.fields.len() as int) =~= lines);
    block.append("}\n");
    assert(block@ =~= entity_block(entity@));
    block
}

/// The line of an edge from the entity named `from` to the one named `to`.
fn write_relation(from: &str, weight: Cardinality, to: &str) -> (line: String)
    ensures
        line@ == from@ + " \"1\" --> \""@ + weight.token() + "\" "@ + to@ + "\n"@,
{
    let mut line = String::new();
    line.append(from);
    line.append(" \"1\" --> \"");
    line.append(weight.to_string().as_str());
    line.append("\" ");
    line.append(to);
    line.append("\n");
    assert(line@ =~= from@ + " \"1\" --> \""@ + weight.token() + "\" "@ + to@ + "\n"@);
    line
}

/// The line of a call from the service named `from` to the one named `to`.
fn write_call(from: &str, call: MicroserviceCall, to: &str) -> (line: String)
    ensures
        line@ == to@ + " -->|\""@ + call.label_text() + "\"| "@ + from@ + "\n"@,
{
    let mut line = String::new();
    line.append(to);
    line.append(" -->|\"");
    line.append(call.label().as_str());
    line.append("\"| ");
    line.append(from);
    line.append("\n");
    assert(line@ =~= to@ + " -->|\""@ + call.label_text() + "\"| "@ + from@ + "\n"@);
    line
}

/// The line of an orphan service.
fn write_orphan(name: &str) -> (line: String)
    ensures
        line@ == "N/A --> "@ + name@ + "\n"@,
{
    let mut line = String::new();
    line.append("N/A --> ");
    line.append(name);
    line.append("\n");
    assert(line@ =~= "N/A --> "@ + name@ + "\n"@);
    line
}

/// Whether none of the edges has an end in the node at `node`.
fn no_edge_at(edges: &[EdgeLine], node: usize) -> (orphan: bool)
    ensures
        orphan == is_orphan(drawn_ends(edges.deep_view()), node as int),
{
    let ghost ends = drawn_ends(edges.deep_view());
    let mut k: usize = 0;
    while k < edges.len()
        invariant
            k <= edges.len() == ends.len(),
            ends == drawn_ends(edges.deep_view()),
            forall|e: int| 0 <= e < k ==> (#[trigger] ends[e]).0 != node && ends[e].1 != node,
        decreases edges.len() - k,
    {
        assert(ends[k as int] == (edges[k as int].from as int, edges[k as int].to as int));
        if edges[k].from == node || edges[k].to == node {
            return false;
        }
        k = k + 1;
    }
    true
}

impl Clone for MermaidString {
    fn clone(&self) -> (copy: MermaidString)
        ensures
            copy@ == self@,
    {
        MermaidString(self.0.clone())
    }
}

impl MermaidString {
    /// The text of the diagram.
    pub fn as_str(&self) -> (text: &str)
        ensures
            text@ == self@,
    {
        self.0.as_str()
    }

    /// The text of the diagram, owned.
    pub fn into_string(self) -> (text: String)
        ensures
            text@ == self@,
    {
        self.0
    }

    /// Puts a diagram together: the header on a line of its own, then the
    /// texts of the nodes, then the lines of the edges, then the texts of
    /// the orphans. `nodes` holds a text for each node, or nothing where the
    /// diagram has no texts of nodes. `orphans` holds a text for each node,
    /// or nothing where the diagram shows no orphans; the text of a node is
    /// written just where no edge has an end in the node.
    pub fn from_graph(header: &str, nodes: &[String], edges: &[EdgeLine], orphans: &[String]) -> (diagram:
        MermaidString)
        ensures
            diagram@ == graph_text(
                header@,
                nodes.deep_view(),
                edges.deep_view(),
                orphans.deep_view(),
            ),
    {
        let mut text = header.to_owned();
        text.append("\n");
        append_all(&mut text, nodes);
        let ghost lines = drawn_lines(edges.deep_view());
        let ghost before_lines = text@;
        let mut k: usize = 0;
        while k < edges.len()
            invariant
                k <= edges.len() == lines.len(),
                lines == drawn_lines(edges.deep_view()),
                text@ == before_lines + lines.take(k as int).flatten(),
            decreases edges.len() - k,
        {
            text.append(edges[k].line.as_str());
            proof {
                assert(lines[k as int] == edges[k as int].line@);
                lines.take(k as int).lemma_flatten_push(lines[k as int]);
                assert(lines.take(k as int).push(lines[k as int]) =~= lines.take(k + 1));
                assert(text@ =~= before_lines + lines.take(k + 1).flatten());
            }
            k = k + 1;
        }
        assert(lines.take(edges.len() as int) =~= lines);
        let ghost ends = drawn_ends(edges.deep_view());
        let ghost texts = orphans.deep_view();
        let ghost before_orphans = text@;
        let mut i: usize = 0;
        while i < orphans.len()
            invariant
                i <= orphans.len(),
                ends == drawn_ends(edges.deep_view()),
                texts == orphans.deep_view(),
                text@ == before_orphans + orphan_texts(ends, texts, i as int).flatten(),
            decreases orphans.len() - i,
        {
            if no_edge_at(edges, i) {
                text.append(orphans[i].as_str());
                proof {
                    orphan_texts(ends, texts, i as int).lemma_flatten_push(texts[i as int]);
                    assert(text@ =~= before_orphans + orphan_texts(ends, texts, i + 1).flatten());
                }
            }
            i = i + 1;
        }
        assert(text@ =~= graph_text(
            header@,
            nodes.deep_view(),
            edges.deep_view(),
            orphans.deep_view(),
        ));
        MermaidString(text)
    }

    /// The class diagram of an entity graph.
    pub fn of_entities(graph: &EntityGraph) -> (diagram: MermaidString)
        ensures
            diagram@ == entity_diagram(graph.node_views(), graph.links()),
    {
        let ghost nodes = graph.node_views();
        let ghost links = graph.links();
        let ghost wanted_blocks = nodes.map_values(|entity: EntityView| entity_block(entity));
        let ghost wanted_lines = edge_views(nodes, links).map_values(
            |edge: EdgeView<EntityView, Cardinality>| relation_line(edge),
        );
        let node_count = graph.node_count();
        let mut blocks: Vec<String> = Vec::new();
        let mut i: usize = 0;
        while i < node_count
            invariant
                i <= node_count == nodes.len(),
                nodes == graph.node_views(),
                blocks.len() == i,
                forall|k: int| 0 <= k < i ==> (#[trigger] blocks[k])@ == entity_block(nodes[k]),
            decreases node_count - i,
        {
            blocks.push(write_entity(graph.node(i)));
            i = i + 1;
        }
        assert(blocks.deep_view() =~= wanted_blocks);
        let edge_count = graph.edge_count();
        let mut edges: Vec<EdgeLine> = Vec::new();
        let mut k: usize = 0;
        while k < edge_count
            invariant
                k <= edge_count == links.len(),
                nodes == graph.node_views(),
                links == graph.links(),
                edges.len() == k,
                forall|e: int|
                    0 <= e < k ==> (#[trigger] edges[e]).line@ == relation_line(
                        edge_view(nodes, links[e]),
                    ),
            decreases edge_count - k,
        {
            let (from, to, weight) = graph.edge(k);
            let line = write_relation(
                graph.node(from).name.as_str(),
                weight,
                graph.node(to).name.as_str(),
            );
            edges.push(EdgeLine { from, to, line });
            k = k + 1;
        }
        assert(drawn_lines(edges.deep_view()) =~= wanted_lines);
        let orphans: Vec<String> = Vec::new();
        assert(orphans.deep_view() =~= Seq::<Seq<char>>::empty());
        MermaidString::from_graph(
            "classDiagram",
            blocks.as_slice(),
            edges.as_slice(),
            orphans.as_slice(),
        )
    }

    /// The flowchart of a service graph.
    pub fn of_services(graph: &MicroserviceGraph) -> (diagram: MermaidString)
        ensures
            diagram@ == service_diagram(graph.node_views(), graph.links()),
    {
        let ghost nodes = graph.node_views();
        let ghost links = graph.links();
        let ghost wanted_lines = edge_views(nodes, links).map_values(
            |edge: EdgeView<MicroserviceView, MicroserviceCall>| call_line(edge),
        );
        let ghost wanted_orphans = nodes.map_values(
            |service: MicroserviceView| orphan_line(service),
        );
        let edge_count = graph.edge_count();
        let mut edges: Vec<EdgeLine> = Vec::new();
        let mut k: usize = 0;
        while k < edge_count
            invariant
                k <= edge_count == links.len(),
                nodes == graph.node_views(),
                links == graph.links(),
                edges.len() == k,
                forall|e: int|
                    0 <= e < k ==> {
                        &&& (#[trigger] edges[e]).line@ == call_line(edge_view(nodes, links[e]))
                        &&& edges[e].from == links[e].source
                        &&& edges[e].to == links[e].target
                    },
            decreases edge_count - k,
        {
            let (from, to, call) = graph.edge(k);
            assert(link_of((from, to, call)) == links[k as int]);
            let line = write_call(graph.node(from).name.as_str(), call, graph.node(to).name.as_str());
            edges.push(EdgeLine { from, to, line });
            k = k + 1;
        }
        assert(drawn_lines(edges.deep_view()) =~= wanted_lines);
        assert(drawn_ends(edges.deep_view()) =~= link_ends(links));
        let node_count = graph.node_count();
        let mut orphans: Vec<String> = Vec::new();
        let mut i: usize = 0;
        while i < node_count
            invariant
                i <= node_count == nodes.len(),
                nodes == graph.node_views(),
                orphans.len() == i,
                forall|n: int| 0 <= n < i ==> (#[trigger] orphans[n])@ == orphan_line(nodes[n]),
            decreases node_count - i,
        {
            orphans.push(write_orphan(graph.node(i).name.as_str()));
            i = i + 1;
        }
        assert(orphans.deep_view() =~= wanted_orphans);
        let blocks: Vec<String> = Vec::new();
        assert(blocks.deep_view() =~= Seq::<Seq<char>>::empty());
        MermaidString::from_graph("graph TD", blocks.as_slice(), edges.as_slice(), orphans.as_slice())
    }
}

impl From<EntityGraph> for MermaidString {
    fn from(graph: EntityGraph) -> (diagram: MermaidString)
        ensures
            diagram@ == entity_diagram(graph.node_views(), graph.links()),
    {
        MermaidString::of_entities(&graph)
    }
}

/// A diagram is known by its text, and `from` promises that text: two
/// diagrams with the same text need not be the same `String`.
impl vstd::std_specs::convert::FromSpecImpl<EntityGraph> for MermaidString {
    open spec fn obeys_from_spec() -> bool {
        false
    }

    open spec fn from_spec(graph: EntityGraph) -> MermaidString {
        choose|diagram: MermaidString|
            diagram@ == entity_diagram(graph.node_views(), graph.links())
    }
}

impl From<MicroserviceGraph> for MermaidString {
    fn from(graph: MicroserviceGraph) -> (diagram: MermaidString)
        ensures
            diagram@ == service_diagram(graph.node_views(), graph.links()),
    {
        MermaidString::of_services(&graph)
    }
}

/// A diagram is known by its text, and `from` promises that text: two
/// diagrams with the same text need not be the same `String`.
impl vstd::std_specs::convert::FromSpecImpl<MicroserviceGraph> for MermaidString {
    open spec fn obeys_from_spec() -> bool {
        false
    }

    open spec fn from_spec(graph: MicroserviceGraph) -> MermaidString {
        choose|diagram: MermaidString|
            diagram@ == service_diagram(graph.node_views(), graph.links())
    }
}

} // verus!
