//! The change reducer: ordered, declarative mutations of the node and edge
//! lists.  Changes apply strictly in input order; a later change to the same
//! field wins.  Removing a node does not cascade to its edges — callers emit
//! those removals themselves.

use vstd::prelude::*;
use crate::geometry::{Dimensions, XYPosition};
use crate::node::Node;
use crate::edge::Edge;

verus! {

/// A declarative mutation of the node list.
#[derive(PartialEq, Debug)]
pub enum NodeChange<T> {
    /// Move a node and set its dragging flag.
    Position { id: String, position: Option<XYPosition>, dragging: bool },
    /// Record a measured size and set the resizing flag.
    Dimensions { id: String, dimensions: Option<Dimensions>, resizing: bool },
    /// Select or deselect a node.
    Selection { id: String, selected: bool },
    /// Drop every node with the id.
    Remove { id: String },
    /// Append a node.
    Add { node: Node<T> },
    /// Swap the node with the id for a new one.
    Replace { id: String, node: Node<T> },
}

impl<T> NodeChange<T> {
    pub fn position(id: String, position: XYPosition, dragging: bool) -> (r: Self)
        ensures
            r == (NodeChange::<T>::Position { id, position: Some(position), dragging }),
    {
        NodeChange::Position { id, position: Some(position), dragging }
    }

    pub fn dimensions(id: String, dimensions: Dimensions, resizing: bool) -> (r: Self)
        ensures
            r == (NodeChange::<T>::Dimensions { id, dimensions: Some(dimensions), resizing }),
    {
        NodeChange::Dimensions { id, dimensions: Some(dimensions), resizing }
    }

    pub fn select(id: String, selected: bool) -> (r: Self)
        ensures
            r == (NodeChange::<T>::Selection { id, selected }),
    {
        NodeChange::Selection { id, selected }
    }

    pub fn remove(id: String) -> (r: Self)
        ensures
            r == (NodeChange::<T>::Remove { id }),
    {
        NodeChange::Remove { id }
    }

    pub fn add(node: Node<T>) -> (r: Self)
        ensures
            r == (NodeChange::Add { node }),
    {
        NodeChange::Add { node }
    }

    pub fn replace(id: String, node: Node<T>) -> (r: Self)
        ensures
            r == (NodeChange::Replace { id, node }),
    {
        NodeChange::Replace { id, node }
    }
}

/// A declarative mutation of the edge list.
#[derive(PartialEq, Debug)]
pub enum EdgeChange<T> {
    /// Select or deselect an edge.
    Selection { id: String, selected: bool },
    /// Drop every edge with the id.
    Remove { id: String },
    /// Append an edge.
    Add { edge: Edge<T> },
    /// Swap the edge with the id for a new one.
    Replace { id: String, edge: Edge<T> },
}

impl<T> EdgeChange<T> {
    pub fn select(id: String, selected: bool) -> (r: Self)
        ensures
            r == (EdgeChange::<T>::Selection { id, selected }),
    {
        EdgeChange::Selection { id, selected }
    }

    pub fn remove(id: String) -> (r: Self)
        ensures
            r == (EdgeChange::<T>::Remove { id }),
    {
        EdgeChange::Remove { id }
    }

    pub fn add(edge: Edge<T>) -> (r: Self)
        ensures
            r == (EdgeChange::Add { edge }),
    {
        EdgeChange::Add { edge }
    }

    pub fn replace(id: String, edge: Edge<T>) -> (r: Self)
        ensures
            r == (EdgeChange::Replace { id, edge }),
    {
        EdgeChange::Replace { id, edge }
    }
}

/// Index of the first node whose id reads `id`, scanning from `start`;
/// `-1` when there is none.
pub open spec fn find_node_from<T>(nodes: Seq<Node<T>>, id: Seq<char>, start: int) -> int
    decreases nodes.len() - start,
{
    if start < 0 || start >= nodes.len() {
        -1
    } else if nodes[start].id@ == id {
        start
    } else {
        find_node_from(nodes, id, start + 1)
    }
}

/// Index of the first node whose id reads `id`; `-1` when there is none.
/// Ids are expected to be unique within a list; with a duplicate, the first
/// match wins everywhere.
pub open spec fn find_node_index<T>(nodes: Seq<Node<T>>, id: Seq<char>) -> int {
    find_node_from(nodes, id, 0)
}

/// Index of the first edge whose id reads `id`, scanning from `start`;
/// `-1` when there is none.
pub open spec fn find_edge_from<T>(edges: Seq<Edge<T>>, id: Seq<char>, start: int) -> int
    decreases edges.len() - start,
{
    if start < 0 || start >= edges.len() {
        -1
    } else if edges[start].id@ == id {
        start
    } else {
        find_edge_from(edges, id, start + 1)
    }
}

/// Index of the first edge whose id reads `id`; `-1` when there is none.
pub open spec fn find_edge_index<T>(edges: Seq<Edge<T>>, id: Seq<char>) -> int {
    find_edge_from(edges, id, 0)
}

/// The node list without any node whose id reads `id`.
pub open spec fn remove_nodes_with_id<T>(nodes: Seq<Node<T>>, id: Seq<char>) -> Seq<Node<T>>
    decreases nodes.len(),
{
    if nodes.len() == 0 {
        Seq::empty()
    } else if nodes[0].id@ == id {
        remove_nodes_with_id(nodes.drop_first(), id)
    } else {
        seq![nodes[0]] + remove_nodes_with_id(nodes.drop_first(), id)
    }
}

/// The edge list without any edge whose id reads `id`.
pub open spec fn remove_edges_with_id<T>(edges: Seq<Edge<T>>, id: Seq<char>) -> Seq<Edge<T>>
    decreases edges.len(),
{
    if edges.len() == 0 {
        Seq::empty()
    } else if edges[0].id@ == id {
        remove_edges_with_id(edges.drop_first(), id)
    } else {
        seq![edges[0]] + remove_edges_with_id(edges.drop_first(), id)
    }
}

/// A node after a `Position` change: the position when one is given, and the
/// dragging flag.
pub open spec fn node_with_position<T>(
    n: Node<T>,
    position: Option<XYPosition>,
    dragging: bool,
) -> Node<T> {
    Node {
        position: match position {
            Some(p) => p,
            None => n.position,
        },
        dragging,
        ..n
    }
}

/// A node after a `Dimensions` change: the measured size when one is given,
/// and the resizing flag.
pub open spec fn node_with_dimensions<T>(
    n: Node<T>,
    dimensions: Option<Dimensions>,
    resizing: bool,
) -> Node<T> {
    Node {
        measured_width: match dimensions {
            Some(d) => Some(d.width),
            None => n.measured_width,
        },
        measured_height: match dimensions {
            Some(d) => Some(d.height),
            None => n.measured_height,
        },
        resizing,
        ..n
    }
}

/// The node list after one change.
pub open spec fn node_change_step<T>(c: NodeChange<T>, nodes: Seq<Node<T>>) -> Seq<Node<T>> {
    match c {
        NodeChange::Position { id, position, dragging } => {
            let i = find_node_index(nodes, id@);
            if i >= 0 {
                nodes.update(i, node_with_position(nodes[i], position, dragging))
            } else {
                nodes
            }
        },
        NodeChange::Dimensions { id, dimensions, resizing } => {
            let i = find_node_index(nodes, id@);
            if i >= 0 {
                nodes.update(i, node_with_dimensions(nodes[i], dimensions, resizing))
            } else {
                nodes
            }
        },
        NodeChange::Selection { id, selected } => {
            let i = find_node_index(nodes, id@);
            if i >= 0 {
                nodes.update(i, Node { selected, ..nodes[i] })
            } else {
                nodes
            }
        },
        NodeChange::Remove { id } => remove_nodes_with_id(nodes, id@),
        NodeChange::Add { node } => nodes.push(node),
        NodeChange::Replace { id, node } => {
            let i = find_node_index(nodes, id@);
            if i >= 0 {
                nodes.update(i, node)
            } else {
                nodes
            }
        },
    }
}

/// The node list after an ordered list of changes.
pub open spec fn apply_node_changes_spec<T>(
    changes: Seq<NodeChange<T>>,
    nodes: Seq<Node<T>>,
) -> Seq<Node<T>>
    decreases changes.len(),
{
    if changes.len() == 0 {
        nodes
    } else {
        apply_node_changes_spec(changes.drop_first(), node_change_step(changes[0], nodes))
    }
}

/// The edge list after one change.
pub open spec fn edge_change_step<T>(c: EdgeChange<T>, edges: Seq<Edge<T>>) -> Seq<Edge<T>> {
    match c {
        EdgeChange::Selection { id, selected } => {
            let i = find_edge_index(edges, id@);
            if i >= 0 {
                edges.update(i, Edge { selected, ..edges[i] })
            } else {
                edges
            }
        },
        EdgeChange::Remove { id } => remove_edges_with_id(edges, id@),
        EdgeChange::Add { edge } => edges.push(edge),
        EdgeChange::Replace { id, edge } => {
            let i = find_edge_index(edges, id@);
            if i >= 0 {
                edges.update(i, edge)
            } else {
                edges
            }
        },
    }
}

/// The edge list after an ordered list of changes.
pub open spec fn apply_edge_changes_spec<T>(
    changes: Seq<EdgeChange<T>>,
    edges: Seq<Edge<T>>,
) -> Seq<Edge<T>>
    decreases changes.len(),
{
    if changes.len() == 0 {
        edges
    } else {
        apply_edge_changes_spec(changes.drop_first(), edge_change_step(changes[0], edges))
    }
}

/// Index of the first node whose id equals `id`, or `None`.
pub fn find_node_position<T>(nodes: &Vec<Node<T>>, id: &String) -> (r: Option<usize>)
    ensures
        match r {
            Some(i) => find_node_index(nodes@, id@) == i as int && i < nodes@.len(),
            None => find_node_index(nodes@, id@) == -1,
        },
{
    let mut i: usize = 0;
    while i < nodes.len()
        invariant
            i <= nodes@.len(),
            find_node_index(nodes@, id@) == find_node_from(nodes@, id@, i as int),
        decreases nodes@.len() - i,
    {
        if nodes[i].id == *id {
            return Some(i);
        }
        i = i + 1;
    }
    None
}

/// Index of the first edge whose id equals `id`, or `None`.
pub fn find_edge_position<T>(edges: &Vec<Edge<T>>, id: &String) -> (r: Option<usize>)
    ensures
        match r {
            Some(i) => find_edge_index(edges@, id@) == i as int && i < edges@.len(),
            None => find_edge_index(edges@, id@) == -1,
        },
{
    let mut i: usize = 0;
    while i < edges.len()
        invariant
            i <= edges@.len(),
            find_edge_index(edges@, id@) == find_edge_from(edges@, id@, i as int),
        decreases edges@.len() - i,
    {
        if edges[i].id == *id {
            return Some(i);
        }
        i = i + 1;
    }
    None
}

/// Drop every node whose id equals `id`, keeping the order of the rest.
fn retain_nodes_without_id<T>(mut nodes: Vec<Node<T>>, id: &String) -> (r: Vec<Node<T>>)
    ensures
        r@ == remove_nodes_with_id(nodes@, id@),
{
    let ghost orig = nodes@;
    let mut out: Vec<Node<T>> = Vec::new();
    while nodes.len() > 0
        invariant
            remove_nodes_with_id(orig, id@) == out@ + remove_nodes_with_id(nodes@, id@),
        decreases nodes@.len(),
    {
        let ghost prev = nodes@;
        let ghost before = out@;
        let n = nodes.remove(0);
        let keep = !(n.id == *id);
        if keep {
            out.push(n);
        }
        proof {
            assert(nodes@ =~= prev.drop_first());
            let rest = remove_nodes_with_id(prev.drop_first(), id@);
            if keep {
                assert(remove_nodes_with_id(prev, id@) == seq![prev[0]] + rest);
                assert(out@ =~= before + seq![prev[0]]);
                assert((before + seq![prev[0]]) + rest =~= before + (seq![prev[0]] + rest));
            } else {
                assert(remove_nodes_with_id(prev, id@) == rest);
            }
        }
    }
    proof {
        assert(remove_nodes_with_id(nodes@, id@) =~= Seq::empty());
        assert(out@ + Seq::<Node<T>>::empty() =~= out@);
    }
    out
}

/// Drop every edge whose id equals `id`, keeping the order of the rest.
fn retain_edges_without_id<T>(mut edges: Vec<Edge<T>>, id: &String) -> (r: Vec<Edge<T>>)
    ensures
        r@ == remove_edges_with_id(edges@, id@),
{
    let ghost orig = edges@;
    let mut out: Vec<Edge<T>> = Vec::new();
    while edges.len() > 0
        invariant
            remove_edges_with_id(orig, id@) == out@ + remove_edges_with_id(edges@, id@),
        decreases edges@.len(),
    {
        let ghost prev = edges@;
        let ghost before = out@;
        let e = edges.remove(0);
        let keep = !(e.id == *id);
        if keep {
            out.push(e);
        }
        proof {
            assert(edges@ =~= prev.drop_first());
            let rest = remove_edges_with_id(prev.drop_first(), id@);
            if keep {
                assert(remove_edges_with_id(prev, id@) == seq![prev[0]] + rest);
                assert(out@ =~= before + seq![prev[0]]);
                assert((before + seq![prev[0]]) + rest =~= before + (seq![prev[0]] + rest));
            } else {
                assert(remove_edges_with_id(prev, id@) == rest);
            }
        }
    }
    proof {
        assert(remove_edges_with_id(edges@, id@) =~= Seq::empty());
        assert(out@ + Seq::<Edge<T>>::empty() =~= out@);
    }
    out
}

/// Apply one node change.
fn apply_one_node_change<T>(change: NodeChange<T>, nodes: Vec<Node<T>>) -> (r: Vec<Node<T>>)
    ensures
        r@ == node_change_step(change, nodes@),
{
    let ghost c = change;
    match change {
        NodeChange::Position { id, position, dragging } => {
            let mut nodes = nodes;
            if let Some(i) = find_node_position(&nodes, &id) {
                let n = &mut nodes[i];
                if let Some(p) = position {
                    n.position = p;
                }
                n.dragging = dragging;
            }
            nodes
        },
        NodeChange::Dimensions { id, dimensions, resizing } => {
            let mut nodes = nodes;
            if let Some(i) = find_node_position(&nodes, &id) {
                let n = &mut nodes[i];
                if let Some(d) = dimensions {
                    n.measured_width = Some(d.width);
                    n.measured_height = Some(d.height);
                }
                n.resizing = resizing;
            }
            nodes
        },
        NodeChange::Selection { id, selected } => {
            let mut nodes = nodes;
            if let Some(i) = find_node_position(&nodes, &id) {
                let n = &mut nodes[i];
                n.selected = selected;
            }
            nodes
        },
        NodeChange::Remove { id } => retain_nodes_without_id(nodes, &id),
        NodeChange::Add { node } => {
            let mut nodes = nodes;
            nodes.push(node);
            nodes
        },
        NodeChange::Replace { id, node } => {
            let mut nodes = nodes;
            if let Some(i) = find_node_position(&nodes, &id) {
                nodes.set(i, node);
            }
            nodes
        },
    }
}

/// Apply one edge change.
fn apply_one_edge_change<T>(change: EdgeChange<T>, edges: Vec<Edge<T>>) -> (r: Vec<Edge<T>>)
    ensures
        r@ == edge_change_step(change, edges@),
{
    match change {
        EdgeChange::Selection { id, selected } => {
            let mut edges = edges;
            if let Some(i) = find_edge_position(&edges, &id) {
                let e = &mut edges[i];
                e.selected = selected;
            }
            edges
        },
        EdgeChange::Remove { id } => retain_edges_without_id(edges, &id),
        EdgeChange::Add { edge } => {
            let mut edges = edges;
            edges.push(edge);
            edges
        },
        EdgeChange::Replace { id, edge } => {
            let mut edges = edges;
            if let Some(i) = find_edge_position(&edges, &id) {
                edges.set(i, edge);
            }
            edges
        },
    }
}

/// Apply an ordered list of node changes; a pure function of its inputs.
pub fn apply_node_changes<T>(mut changes: Vec<NodeChange<T>>, nodes: Vec<Node<T>>) -> (r: Vec<
    Node<T>,
>)
    ensures
        r@ == apply_node_changes_spec(changes@, nodes@),
{
    let ghost orig_changes = changes@;
    let ghost orig_nodes = nodes@;
    let mut nodes = nodes;
    while changes.len() > 0
        invariant
            apply_node_changes_spec(orig_changes, orig_nodes) == apply_node_changes_spec(
                changes@,
                nodes@,
            ),
        decreases changes@.len(),
    {
        let change = changes.remove(0);
        nodes = apply_one_node_change(change, nodes);
    }
    nodes
}

/// Apply an ordered list of edge changes; a pure function of its inputs.
pub fn apply_edge_changes<T>(mut changes: Vec<EdgeChange<T>>, edges: Vec<Edge<T>>) -> (r: Vec<
    Edge<T>,
>)
    ensures
        r@ == apply_edge_changes_spec(changes@, edges@),
{
    let ghost orig_changes = changes@;
    let ghost orig_edges = edges@;
    let mut edges = edges;
    while changes.len() > 0
        invariant
            apply_edge_changes_spec(orig_changes, orig_edges) == apply_edge_changes_spec(
                changes@,
                edges@,
            ),
        decreases changes@.len(),
    {
        let change = changes.remove(0);
        edges = apply_one_edge_change(change, edges);
    }
    edges
}

/// The position change a drag emits for one node.
pub fn get_position_change<T>(node: &Node<T>, position: XYPosition, dragging: bool) -> (r:
    NodeChange<T>)
    ensures
        r == (NodeChange::<T>::Position {
            id: r->Position_id,
            position: Some(position),
            dragging,
        }),
        r->Position_id@ == node.id@,
{
    NodeChange::Position { id: node.id.clone(), position: Some(position), dragging }
}

/// The id list holds a string reading `id`.
pub open spec fn seq_contains_string(ids: Seq<String>, id: Seq<char>) -> bool {
    exists|k: int| 0 <= k < ids.len() && #[trigger] ids[k]@ == id
}

/// Whether the vector holds a string equal to `id`.
pub fn vec_contains_string(ids: &Vec<String>, id: &String) -> (r: bool)
    ensures
        r == seq_contains_string(ids@, id@),
{
    let mut k: usize = 0;
    while k < ids.len()
        invariant
            k <= ids@.len(),
            forall|j: int| 0 <= j < k ==> #[trigger] ids@[j]@ != id@,
        decreases ids@.len() - k,
    {
        if ids[k] == *id {
            return true;
        }
        k = k + 1;
    }
    false
}

/// The selection changes owed for the nodes from index `i` on: one change per
/// node whose selected flag differs from membership in `ids`.
pub open spec fn selection_changes_from<T>(
    nodes: Seq<Node<T>>,
    ids: Seq<String>,
    i: int,
) -> Seq<NodeChange<T>>
    decreases nodes.len() - i,
{
    if i < 0 || i >= nodes.len() {
        Seq::empty()
    } else {
        let target = seq_contains_string(ids, nodes[i].id@);
        let head: Seq<NodeChange<T>> = if nodes[i].selected != target {
            seq![NodeChange::Selection { id: nodes[i].id, selected: target }]
        } else {
            Seq::empty()
        };
        head + selection_changes_from(nodes, ids, i + 1)
    }
}

/// Selection changes that bring `nodes` to exactly the ids in `selected_ids`:
/// one change per node whose flag must flip, in node order.
pub fn get_selection_changes<T>(nodes: &Vec<Node<T>>, selected_ids: &Vec<String>) -> (r: Vec<
    NodeChange<T>,
>)
    ensures
        r@ == selection_changes_from(nodes@, selected_ids@, 0),
{
    let mut changes: Vec<NodeChange<T>> = Vec::new();
    let mut i: usize = 0;
    while i < nodes.len()
        invariant
            i <= nodes@.len(),
            selection_changes_from(nodes@, selected_ids@, 0) == changes@
                + selection_changes_from(nodes@, selected_ids@, i as int),
        decreases nodes@.len() - i,
    {
        let ghost before = changes@;
        let should_be_selected = vec_contains_string(selected_ids, &nodes[i].id);
        if nodes[i].selected != should_be_selected {
            changes.push(NodeChange::Selection { id: nodes[i].id.clone(), selected:
                should_be_selected });
        }
        proof {
            let tail = selection_changes_from(nodes@, selected_ids@, i as int + 1);
            if nodes@[i as int].selected != should_be_selected {
                let c = NodeChange::<T>::Selection {
                    id: nodes@[i as int].id,
                    selected: should_be_selected,
                };
                assert(changes@ =~= before + seq![c]);
                assert((before + seq![c]) + tail =~= before + (seq![c] + tail));
            } else {
                assert(before + (Seq::<NodeChange<T>>::empty() + tail) =~= before + tail);
            }
        }
        i = i + 1;
    }
    proof {
        assert(selection_changes_from(nodes@, selected_ids@, nodes@.len() as int)
            =~= Seq::<NodeChange<T>>::empty());
        assert(changes@ + Seq::<NodeChange<T>>::empty() =~= changes@);
    }
    changes
}

/// No two nodes share an id.
pub open spec fn node_ids_unique<T>(nodes: Seq<Node<T>>) -> bool {
    forall|i: int, j: int|
        0 <= i < j < nodes.len() ==> #[trigger] nodes[i].id@ != #[trigger] nodes[j].id@
}

/// The first-match index is sound and complete: a non-negative result names a
/// matching node preceded by none, and `-1` means no node matches.
pub proof fn lemma_find_node_is_first<T>(nodes: Seq<Node<T>>, id: Seq<char>)
    ensures
        find_node_index(nodes, id) == -1 || find_node_index(nodes, id) >= 0,
        find_node_index(nodes, id) == -1 ==> forall|j: int|
            0 <= j < nodes.len() ==> #[trigger] nodes[j].id@ != id,
        find_node_index(nodes, id) >= 0 ==> {
            let i = find_node_index(nodes, id);
            &&& i < nodes.len()
            &&& nodes[i].id@ == id
            &&& forall|j: int| 0 <= j < i ==> #[trigger] nodes[j].id@ != id
        },
{
    lemma_find_node_from_props(nodes, id, 0);
}

proof fn lemma_find_node_from_props<T>(nodes: Seq<Node<T>>, id: Seq<char>, start: int)
    requires
        start >= 0,
    ensures
        find_node_from(nodes, id, start) == -1 || find_node_from(nodes, id, start) >= start,
        find_node_from(nodes, id, start) == -1 ==> forall|j: int|
            start <= j < nodes.len() ==> #[trigger] nodes[j].id@ != id,
        find_node_from(nodes, id, start) >= 0 ==> {
            let i = find_node_from(nodes, id, start);
            &&& start <= i < nodes.len()
            &&& nodes[i].id@ == id
            &&& forall|j: int| start <= j < i ==> #[trigger] nodes[j].id@ != id
        },
    decreases nodes.len() - start,
{
    if start >= nodes.len() {
    } else if nodes[start].id@ == id {
    } else {
        lemma_find_node_from_props(nodes, id, start + 1);
    }
}

/// Two lists whose nodes carry the same ids position-for-position give the
/// same first-match index.
pub proof fn lemma_find_same_ids<T>(a: Seq<Node<T>>, b: Seq<Node<T>>, id: Seq<char>, start: int)
    requires
        a.len() == b.len(),
        forall|j: int| 0 <= j < a.len() ==> #[trigger] a[j].id@ == b[j].id@,
    ensures
        find_node_from(a, id, start) == find_node_from(b, id, start),
    decreases a.len() - start,
{
    if start < 0 || start >= a.len() {
    } else {
        lemma_find_same_ids(a, b, id, start + 1);
    }
}

/// Law: changes apply strictly in input order and the later write per field
/// wins.  Applying `[Position(id, p1), Selection(id, true), Position(id, p2)]`
/// leaves the addressed node at position `p2`, selected, with the dragging
/// flag of the last change, all its other fields untouched, and every other
/// node unchanged; with no node of that id the list is unchanged.
pub proof fn lemma_position_selection_order<T>(
    nodes: Seq<Node<T>>,
    id: String,
    p1: XYPosition,
    p2: XYPosition,
    d1: bool,
    d2: bool,
)
    ensures
        ({
            let cs = seq![
                NodeChange::<T>::Position { id, position: Some(p1), dragging: d1 },
                NodeChange::<T>::Selection { id, selected: true },
                NodeChange::<T>::Position { id, position: Some(p2), dragging: d2 },
            ];
            let r = apply_node_changes_spec(cs, nodes);
            let i = find_node_index(nodes, id@);
            &&& i == -1 ==> r == nodes
            &&& i >= 0 ==> r == nodes.update(
                i,
                Node { position: p2, selected: true, dragging: d2, ..nodes[i] },
            )
        }),
{
    let c1 = NodeChange::<T>::Position { id, position: Some(p1), dragging: d1 };
    let c2 = NodeChange::<T>::Selection { id, selected: true };
    let c3 = NodeChange::<T>::Position { id, position: Some(p2), dragging: d2 };
    let cs = seq![c1, c2, c3];
    let i = find_node_index(nodes, id@);
    assert(cs.drop_first() =~= seq![c2, c3]);
    assert(seq![c2, c3].drop_first() =~= seq![c3]);
    assert(seq![c3].drop_first() =~= Seq::<NodeChange<T>>::empty());
    assert(cs[0] == c1 && seq![c2, c3][0] == c2 && seq![c3][0] == c3);
    if i == -1 {
        assert(node_change_step(c1, nodes) == nodes);
        assert(node_change_step(c2, nodes) == nodes);
        assert(node_change_step(c3, nodes) == nodes);
        assert(apply_node_changes_spec(cs, nodes) == apply_node_changes_spec(
            seq![c2, c3],
            nodes,
        ));
        assert(apply_node_changes_spec(seq![c2, c3], nodes) == apply_node_changes_spec(
            seq![c3],
            nodes,
        ));
        assert(apply_node_changes_spec(seq![c3], nodes) == apply_node_changes_spec(
            Seq::<NodeChange<T>>::empty(),
            nodes,
        ));
        assert(apply_node_changes_spec(Seq::<NodeChange<T>>::empty(), nodes) == nodes);
    } else {
        lemma_find_node_is_first(nodes, id@);
        let n0 = nodes[i];
        let n1 = node_with_position(n0, Some(p1), d1);
        let nodes1 = nodes.update(i, n1);
        assert(node_change_step(c1, nodes) =~= nodes1);
        lemma_find_same_ids(nodes, nodes1, id@, 0);
        let n2 = Node { selected: true, ..n1 };
        let nodes2 = nodes1.update(i, n2);
        assert(nodes1[i] == n1);
        assert(node_change_step(c2, nodes1) =~= nodes2);
        lemma_find_same_ids(nodes, nodes2, id@, 0);
        let n3 = node_with_position(n2, Some(p2), d2);
        let nodes3 = nodes2.update(i, n3);
        assert(nodes2[i] == n2);
        assert(node_change_step(c3, nodes2) =~= nodes3);
        assert(apply_node_changes_spec(cs, nodes) == apply_node_changes_spec(
            seq![c2, c3],
            nodes1,
        ));
        assert(apply_node_changes_spec(seq![c2, c3], nodes1) == apply_node_changes_spec(
            seq![c3],
            nodes2,
        ));
        assert(apply_node_changes_spec(seq![c3], nodes2) == apply_node_changes_spec(
            Seq::<NodeChange<T>>::empty(),
            nodes3,
        ));
        assert(apply_node_changes_spec(Seq::<NodeChange<T>>::empty(), nodes3) == nodes3);
        assert(nodes3 =~= nodes.update(i, n3));
        assert(n3 == (Node { position: p2, selected: true, dragging: d2, ..n0 }));
    }
}

} // verus!
