//! Graph utilities: bounding boxes, spatial queries, and adjacency lookups.
//!
//! Queries over the node and edge lists return indices into those lists, in
//! ascending order, rather than copies of the elements.

use vstd::prelude::*;
use crate::edge::Edge;
use crate::geometry::{rect_contains_rect, rects_intersect, Rect};
use crate::node::{node_dimensions_spec, InternalNode, Node};
use crate::num::coord_ok;

verus! {

/// The flow-space rectangle a node occupies: its position and resolved size.
pub open spec fn node_rect<T>(n: Node<T>) -> Rect {
    Rect {
        x: n.position.x,
        y: n.position.y,
        width: node_dimensions_spec(n).width,
        height: node_dimensions_spec(n).height,
    }
}

/// Every coordinate that the node contributes to geometry is in the flow
/// range.
pub open spec fn node_coords_ok<T>(n: Node<T>) -> bool {
    &&& coord_ok(n.position.x as int)
    &&& coord_ok(n.position.y as int)
    &&& coord_ok(node_dimensions_spec(n).width as int)
    &&& coord_ok(node_dimensions_spec(n).height as int)
    &&& match n.extent {
        Some(crate::node::NodeExtent::CoordinateExtent(e)) => crate::viewport::extent_ok(e),
        _ => true,
    }
}

/// Every node in the list is in the flow range.
pub open spec fn nodes_coords_ok<T>(nodes: Seq<Node<T>>) -> bool {
    forall|i: int| 0 <= i < nodes.len() ==> #[trigger] node_coords_ok(nodes[i])
}

/// A second edge already connects the same nodes through the same handles.
pub open spec fn same_connection<A, B>(a: Edge<A>, b: Edge<B>) -> bool {
    &&& a.source@ == b.source@
    &&& a.target@ == b.target@
    &&& opt_id_eq(a.source_handle, b.source_handle)
    &&& opt_id_eq(a.target_handle, b.target_handle)
}

/// Two optional ids read the same: both absent, or both present and equal.
pub open spec fn opt_id_eq(a: Option<String>, b: Option<String>) -> bool {
    match (a, b) {
        (Some(x), Some(y)) => x@ == y@,
        (None, None) => true,
        _ => false,
    }
}

/// Whether two optional ids read the same.
pub fn opt_string_eq(a: &Option<String>, b: &Option<String>) -> (r: bool)
    ensures
        r == opt_id_eq(*a, *b),
{
    match (a, b) {
        (Some(x), Some(y)) => *x == *y,
        (None, None) => true,
        _ => false,
    }
}

/// Append an edge unless one with the same endpoints and handles is already
/// present.
pub fn add_edge<E>(edge: Edge<E>, edges: Vec<Edge<E>>) -> (r: Vec<Edge<E>>)
    ensures
        r@ == if exists|i: int|
            0 <= i < edges@.len() && same_connection(#[trigger] edges@[i], edge) {
            edges@
        } else {
            edges@.push(edge)
        },
{
    let mut i: usize = 0;
    let mut exists_same = false;
    while i < edges.len()
        invariant
            i <= edges@.len(),
            exists_same == exists|j: int|
                0 <= j < i && same_connection(#[trigger] edges@[j], edge),
        decreases edges@.len() - i,
    {
        if edges[i].source == edge.source && edges[i].target == edge.target && opt_string_eq(
            &edges[i].source_handle,
            &edge.source_handle,
        ) && opt_string_eq(&edges[i].target_handle, &edge.target_handle) {
            exists_same = true;
        }
        i = i + 1;
    }
    let mut edges = edges;
    if !exists_same {
        edges.push(edge);
    }
    edges
}

/// The bounding box of a set of node rectangles: empty input gives the zero
/// rectangle; otherwise each edge of the result touches some node and every
/// node lies inside it.
pub open spec fn rect_is_nodes_bounds<T>(nodes: Seq<Node<T>>, r: Rect) -> bool {
    &&& forall|j: int|
        0 <= j < nodes.len() ==> rect_contains_rect(r, #[trigger] node_rect(nodes[j]))
    &&& exists|j: int| 0 <= j < nodes.len() && r.x == #[trigger] node_rect(nodes[j]).x
    &&& exists|j: int| 0 <= j < nodes.len() && r.y == #[trigger] node_rect(nodes[j]).y
    &&& exists|j: int|
        0 <= j < nodes.len() && r.x + r.width == #[trigger] node_rect(nodes[j]).x + node_rect(
            nodes[j],
        ).width
    &&& exists|j: int|
        0 <= j < nodes.len() && r.y + r.height == #[trigger] node_rect(nodes[j]).y + node_rect(
            nodes[j],
        ).height
}

pub fn get_nodes_bounds<T>(nodes: &Vec<Node<T>>) -> (r: Rect)
    requires
        nodes_coords_ok(nodes@),
    ensures
        nodes@.len() == 0 ==> r == (Rect { x: 0, y: 0, width: 0, height: 0 }),
        nodes@.len() > 0 ==> rect_is_nodes_bounds(nodes@, r),
        nodes@.len() > 0 ==> crate::geometry::rect_span_ok(r),
{
    if nodes.len() == 0 {
        return Rect { x: 0, y: 0, width: 0, height: 0 };
    }
    proof {
        assert(node_coords_ok(nodes@[0]));
    }
    let d0 = nodes[0].get_dimensions();
    let mut min_x: i64 = nodes[0].position.x;
    let mut min_y: i64 = nodes[0].position.y;
    let mut max_x: i64 = nodes[0].position.x + d0.width;
    let mut max_y: i64 = nodes[0].position.y + d0.height;
    let mut i: usize = 1;
    proof {
        let nr0 = node_rect(nodes@[0]);
        assert(nr0.x == min_x && nr0.y == min_y && nr0.x + nr0.width == max_x && nr0.y + nr0.height
            == max_y);
    }
    while i < nodes.len()
        invariant
            1 <= i <= nodes@.len(),
            nodes_coords_ok(nodes@),
            -2 * crate::num::COORD_MAX <= min_x <= 2 * crate::num::COORD_MAX,
            -2 * crate::num::COORD_MAX <= min_y <= 2 * crate::num::COORD_MAX,
            -2 * crate::num::COORD_MAX <= max_x <= 2 * crate::num::COORD_MAX,
            -2 * crate::num::COORD_MAX <= max_y <= 2 * crate::num::COORD_MAX,
            forall|j: int|
                0 <= j < i ==> {
                    let nr = #[trigger] node_rect(nodes@[j]);
                    min_x <= nr.x && min_y <= nr.y && nr.x + nr.width <= max_x && nr.y + nr.height
                        <= max_y
                },
            exists|j: int| 0 <= j < i && min_x == #[trigger] node_rect(nodes@[j]).x,
            exists|j: int| 0 <= j < i && min_y == #[trigger] node_rect(nodes@[j]).y,
            exists|j: int|
                0 <= j < i && max_x == #[trigger] node_rect(nodes@[j]).x + node_rect(
                    nodes@[j],
                ).width,
            exists|j: int|
                0 <= j < i && max_y == #[trigger] node_rect(nodes@[j]).y + node_rect(
                    nodes@[j],
                ).height,
        decreases nodes@.len() - i,
    {
        proof {
            assert(node_coords_ok(nodes@[i as int]));
        }
        let d = nodes[i].get_dimensions();
        let px = nodes[i].position.x;
        let py = nodes[i].position.y;
        if px < min_x {
            min_x = px;
        }
        if py < min_y {
            min_y = py;
        }
        if px + d.width > max_x {
            max_x = px + d.width;
        }
        if py + d.height > max_y {
            max_y = py + d.height;
        }
        proof {
            let nr = node_rect(nodes@[i as int]);
            assert(nr.x == px && nr.y == py && nr.width == d.width && nr.height == d.height);
        }
        i = i + 1;
    }
    Rect { x: min_x, y: min_y, width: max_x - min_x, height: max_y - min_y }
}

/// The indices of the nodes whose rectangle lies inside `rect` (fully, or
/// merely overlapping it), in ascending order.
pub fn get_nodes_inside<T>(nodes: &Vec<Node<T>>, rect: Rect, fully_inside: bool) -> (r: Vec<usize>)
    ensures
        forall|k: int|
            0 <= k < r@.len() ==> #[trigger] r@[k] < nodes@.len() && (if fully_inside {
                rect_contains_rect(rect, node_rect(nodes@[r@[k] as int]))
            } else {
                rects_intersect(rect, node_rect(nodes@[r@[k] as int]))
            }),
        forall|k1: int, k2: int| 0 <= k1 < k2 < r@.len() ==> r@[k1] < r@[k2],
        forall|j: int|
            0 <= j < nodes@.len() && (if fully_inside {
                rect_contains_rect(rect, #[trigger] node_rect(nodes@[j]))
            } else {
                rects_intersect(rect, #[trigger] node_rect(nodes@[j]))
            }) ==> exists|k: int| 0 <= k < r@.len() && #[trigger] r@[k] == j,
{
    let mut out: Vec<usize> = Vec::new();
    let mut i: usize = 0;
    while i < nodes.len()
        invariant
            i <= nodes@.len(),
            forall|k: int|
                0 <= k < out@.len() ==> #[trigger] out@[k] < i && (if fully_inside {
                    rect_contains_rect(rect, node_rect(nodes@[out@[k] as int]))
                } else {
                    rects_intersect(rect, node_rect(nodes@[out@[k] as int]))
                }),
            forall|k1: int, k2: int| 0 <= k1 < k2 < out@.len() ==> out@[k1] < out@[k2],
            forall|j: int|
                0 <= j < i && (if fully_inside {
                    rect_contains_rect(rect, #[trigger] node_rect(nodes@[j]))
                } else {
                    rects_intersect(rect, #[trigger] node_rect(nodes@[j]))
                }) ==> exists|k: int| 0 <= k < out@.len() && #[trigger] out@[k] == j,
        decreases nodes@.len() - i,
    {
        let dims = nodes[i].get_dimensions();
        let nr = Rect {
            x: nodes[i].position.x,
            y: nodes[i].position.y,
            width: dims.width,
            height: dims.height,
        };
        proof {
            assert(nr == node_rect(nodes@[i as int]));
        }
        let hit = if fully_inside {
            rect.contains_rect(&nr)
        } else {
            rect.intersects(&nr)
        };
        let ghost before = out@;
        if hit {
            out.push(i);
        }
        proof {
            if hit {
                assert(out@ == before.push(i));
                assert(forall|k: int| 0 <= k < before.len() ==> #[trigger] out@[k] == before[k]);
                assert(out@[out@.len() - 1] == i);
            }
            assert forall|j: int|
                0 <= j < i + 1 && (if fully_inside {
                    rect_contains_rect(rect, #[trigger] node_rect(nodes@[j]))
                } else {
                    rects_intersect(rect, #[trigger] node_rect(nodes@[j]))
                }) implies exists|k: int| 0 <= k < out@.len() && #[trigger] out@[k] == j by {
                if j == i as int {
                    assert(out@[out@.len() - 1] == j);
                } else {
                    let k = choose|k: int| 0 <= k < before.len() && #[trigger] before[k] == j;
                    assert(out@[k] == j);
                }
            }
        }
        i = i + 1;
    }
    out
}

/// The edge touches a node carried in `ids` as source or as target.
pub open spec fn edge_touches<E>(e: Edge<E>, ids: Seq<String>) -> bool {
    crate::change::seq_contains_string(ids, e.source@) || crate::change::seq_contains_string(
        ids,
        e.target@,
    )
}

/// The indices of the edges that touch any of the nodes, in ascending order.
pub fn get_connected_edges<N, E>(nodes: &Vec<Node<N>>, edges: &Vec<Edge<E>>) -> (r: Vec<usize>)
    ensures
        forall|k: int|
            0 <= k < r@.len() ==> #[trigger] r@[k] < edges@.len() && edge_touches(
                edges@[r@[k] as int],
                nodes@.map_values(|n: Node<N>| n.id),
            ),
        forall|k1: int, k2: int| 0 <= k1 < k2 < r@.len() ==> r@[k1] < r@[k2],
        forall|j: int|
            0 <= j < edges@.len() && edge_touches(
                #[trigger] edges@[j],
                nodes@.map_values(|n: Node<N>| n.id),
            ) ==> exists|k: int| 0 <= k < r@.len() && #[trigger] r@[k] == j,
{
    let ghost ids = nodes@.map_values(|n: Node<N>| n.id);
    let mut out: Vec<usize> = Vec::new();
    let mut i: usize = 0;
    while i < edges.len()
        invariant
            i <= edges@.len(),
            ids == nodes@.map_values(|n: Node<N>| n.id),
            forall|k: int|
                0 <= k < out@.len() ==> #[trigger] out@[k] < i && edge_touches(
                    edges@[out@[k] as int],
                    ids,
                ),
            forall|k1: int, k2: int| 0 <= k1 < k2 < out@.len() ==> out@[k1] < out@[k2],
            forall|j: int|
                0 <= j < i && edge_touches(#[trigger] edges@[j], ids) ==> exists|k: int|
                    0 <= k < out@.len() && #[trigger] out@[k] == j,
        decreases edges@.len() - i,
    {
        let touches_source = node_id_present(nodes, &edges[i].source);
        let touches_target = node_id_present(nodes, &edges[i].target);
        let ghost before = out@;
        let touches = touches_source || touches_target;
        if touches {
            out.push(i);
        }
        proof {
            if touches {
                assert(out@ == before.push(i));
                assert(forall|k: int| 0 <= k < before.len() ==> #[trigger] out@[k] == before[k]);
                assert(out@[out@.len() - 1] == i);
            }
            assert forall|j: int|
                0 <= j < i + 1 && edge_touches(#[trigger] edges@[j], ids) implies exists|k: int|
                0 <= k < out@.len() && #[trigger] out@[k] == j by {
                if j == i as int {
                    assert(out@[out@.len() - 1] == j);
                } else {
                    let k = choose|k: int| 0 <= k < before.len() && #[trigger] before[k] == j;
                    assert(out@[k] == j);
                }
            }
        }
        i = i + 1;
    }
    out
}

/// Whether some node carries this id.
pub fn node_id_present<N>(nodes: &Vec<Node<N>>, id: &String) -> (r: bool)
    ensures
        r == crate::change::seq_contains_string(nodes@.map_values(|n: Node<N>| n.id), id@),
{
    let ghost ids = nodes@.map_values(|n: Node<N>| n.id);
    let mut i: usize = 0;
    while i < nodes.len()
        invariant
            i <= nodes@.len(),
            ids == nodes@.map_values(|n: Node<N>| n.id),
            forall|j: int| 0 <= j < i ==> #[trigger] ids[j]@ != id@,
        decreases nodes@.len() - i,
    {
        if nodes[i].id == *id {
            proof {
                assert(ids[i as int]@ == id@);
            }
            return true;
        }
        i = i + 1;
    }
    false
}

/// The node indices an edge walk collects from edge `e` on: for each edge
/// whose `into` end reads `id`, the index of the first node carrying the
/// other end's id, edges in order, unknown ids skipped.
pub open spec fn neighbor_indices_from<N, E>(
    nodes: Seq<Node<N>>,
    edges: Seq<Edge<E>>,
    id: Seq<char>,
    incoming: bool,
    e: int,
) -> Seq<int>
    decreases edges.len() - e,
{
    if e < 0 || e >= edges.len() {
        Seq::empty()
    } else {
        let hit = if incoming {
            edges[e].target@ == id
        } else {
            edges[e].source@ == id
        };
        let other = if incoming {
            edges[e].source@
        } else {
            edges[e].target@
        };
        let j = crate::change::find_node_index(nodes, other);
        let head: Seq<int> = if hit && j >= 0 {
            seq![j]
        } else {
            Seq::empty()
        };
        head + neighbor_indices_from(nodes, edges, id, incoming, e + 1)
    }
}

/// The indices of the nodes from which an edge runs into `node`: one entry
/// per incoming edge whose source node exists, in edge order.
pub fn get_incomers<N, E>(node: &Node<N>, nodes: &Vec<Node<N>>, edges: &Vec<Edge<E>>) -> (r: Vec<
    usize,
>)
    ensures
        ({
            let spec = neighbor_indices_from(nodes@, edges@, node.id@, true, 0);
            &&& r@.len() == spec.len()
            &&& forall|k: int| 0 <= k < r@.len() ==> #[trigger] r@[k] == spec[k]
            &&& forall|k: int| 0 <= k < r@.len() ==> #[trigger] r@[k] < nodes@.len()
        }),
{
    neighbor_indices(node, nodes, edges, true)
}

/// The indices of the nodes into which an edge runs from `node`: one entry
/// per outgoing edge whose target node exists, in edge order.
pub fn get_outgoers<N, E>(node: &Node<N>, nodes: &Vec<Node<N>>, edges: &Vec<Edge<E>>) -> (r: Vec<
    usize,
>)
    ensures
        ({
            let spec = neighbor_indices_from(nodes@, edges@, node.id@, false, 0);
            &&& r@.len() == spec.len()
            &&& forall|k: int| 0 <= k < r@.len() ==> #[trigger] r@[k] == spec[k]
            &&& forall|k: int| 0 <= k < r@.len() ==> #[trigger] r@[k] < nodes@.len()
        }),
{
    neighbor_indices(node, nodes, edges, false)
}

/// Walk the edges once, collecting neighbor node indices.
fn neighbor_indices<N, E>(
    node: &Node<N>,
    nodes: &Vec<Node<N>>,
    edges: &Vec<Edge<E>>,
    incoming: bool,
) -> (r: Vec<usize>)
    ensures
        ({
            let spec = neighbor_indices_from(nodes@, edges@, node.id@, incoming, 0);
            &&& r@.len() == spec.len()
            &&& forall|k: int| 0 <= k < r@.len() ==> #[trigger] r@[k] == spec[k]
            &&& forall|k: int| 0 <= k < r@.len() ==> #[trigger] r@[k] < nodes@.len()
        }),
{
    let ghost whole = neighbor_indices_from(nodes@, edges@, node.id@, incoming, 0);
    let mut out: Vec<usize> = Vec::new();
    let ghost mut acc: Seq<int> = Seq::empty();
    let mut i: usize = 0;
    proof {
        assert(whole =~= acc + neighbor_indices_from(nodes@, edges@, node.id@, incoming, 0));
    }
    while i < edges.len()
        invariant
            i <= edges@.len(),
            whole == neighbor_indices_from(nodes@, edges@, node.id@, incoming, 0),
            whole == acc + neighbor_indices_from(nodes@, edges@, node.id@, incoming, i as int),
            acc.len() == out@.len(),
            forall|k: int| 0 <= k < out@.len() ==> #[trigger] out@[k] == acc[k],
            forall|k: int| 0 <= k < out@.len() ==> #[trigger] out@[k] < nodes@.len(),
        decreases edges@.len() - i,
    {
        let ghost before = acc;
        let hit = if incoming {
            edges[i].target == node.id
        } else {
            edges[i].source == node.id
        };
        if hit {
            let other = if incoming {
                &edges[i].source
            } else {
                &edges[i].target
            };
            if let Some(j) = crate::change::find_node_position(nodes, other) {
                out.push(j);
                proof {
                    acc = acc + seq![j as int];
                }
            }
        }
        proof {
            let tail = neighbor_indices_from(nodes@, edges@, node.id@, incoming, i as int + 1);
            let other_id = if incoming {
                edges@[i as int].source@
            } else {
                edges@[i as int].target@
            };
            let j = crate::change::find_node_index(nodes@, other_id);
            if acc != before {
                assert((before + seq![j]) + tail =~= before + (seq![j] + tail));
            } else {
                assert(before + (Seq::<int>::empty() + tail) =~= before + tail);
            }
        }
        i = i + 1;
    }
    proof {
        assert(neighbor_indices_from(nodes@, edges@, node.id@, incoming, edges@.len() as int)
            =~= Seq::<int>::empty());
        assert(acc + Seq::<int>::empty() =~= acc);
    }
    out
}

/// The bounding box of a list of derived nodes, over their absolute
/// positions; empty input gives the zero rectangle.
pub fn get_internal_nodes_bounds(internals: &Vec<InternalNode>) -> (r: Rect)
    requires
        forall|i: int|
            0 <= i < internals@.len() ==> {
                let n = #[trigger] internals@[i];
                coord_ok(n.position_absolute.x as int) && coord_ok(n.position_absolute.y as int)
                    && coord_ok(n.dimensions.width as int) && coord_ok(n.dimensions.height as int)
            },
    ensures
        internals@.len() == 0 ==> r == (Rect { x: 0, y: 0, width: 0, height: 0 }),
        internals@.len() > 0 ==> forall|j: int|
            0 <= j < internals@.len() ==> {
                let n = #[trigger] internals@[j];
                r.x <= n.position_absolute.x && r.y <= n.position_absolute.y
                    && n.position_absolute.x + n.dimensions.width <= r.x + r.width
                    && n.position_absolute.y + n.dimensions.height <= r.y + r.height
            },
        internals@.len() > 0 ==> (exists|j: int|
            0 <= j < internals@.len() && r.x == (#[trigger] internals@[j]).position_absolute.x),
        internals@.len() > 0 ==> (exists|j: int|
            0 <= j < internals@.len() && r.y == (#[trigger] internals@[j]).position_absolute.y),
        internals@.len() > 0 ==> (exists|j: int|
            0 <= j < internals@.len() && r.x + r.width == (
            #[trigger] internals@[j]).position_absolute.x + internals@[j].dimensions.width),
        internals@.len() > 0 ==> (exists|j: int|
            0 <= j < internals@.len() && r.y + r.height == (
            #[trigger] internals@[j]).position_absolute.y + internals@[j].dimensions.height),
{
    if internals.len() == 0 {
        return Rect { x: 0, y: 0, width: 0, height: 0 };
    }
    let mut min_x: i64 = internals[0].position_absolute.x;
    let mut min_y: i64 = internals[0].position_absolute.y;
    let mut max_x: i64 = internals[0].position_absolute.x + internals[0].dimensions.width;
    let mut max_y: i64 = internals[0].position_absolute.y + internals[0].dimensions.height;
    let mut i: usize = 1;
    while i < internals.len()
        invariant
            1 <= i <= internals@.len(),
            forall|j: int|
                0 <= j < internals@.len() ==> {
                    let n = #[trigger] internals@[j];
                    coord_ok(n.position_absolute.x as int) && coord_ok(n.position_absolute.y as int)
                        && coord_ok(n.dimensions.width as int) && coord_ok(
                        n.dimensions.height as int,
                    )
                },
            -2 * crate::num::COORD_MAX <= min_x <= 2 * crate::num::COORD_MAX,
            -2 * crate::num::COORD_MAX <= min_y <= 2 * crate::num::COORD_MAX,
            -2 * crate::num::COORD_MAX <= max_x <= 2 * crate::num::COORD_MAX,
            -2 * crate::num::COORD_MAX <= max_y <= 2 * crate::num::COORD_MAX,
            forall|j: int|
                0 <= j < i ==> {
                    let n = #[trigger] internals@[j];
                    min_x <= n.position_absolute.x && min_y <= n.position_absolute.y
                        && n.position_absolute.x + n.dimensions.width <= max_x
                        && n.position_absolute.y + n.dimensions.height <= max_y
                },
            exists|j: int|
                0 <= j < i && min_x == (#[trigger] internals@[j]).position_absolute.x,
            exists|j: int|
                0 <= j < i && min_y == (#[trigger] internals@[j]).position_absolute.y,
            exists|j: int|
                0 <= j < i && max_x == (#[trigger] internals@[j]).position_absolute.x
                    + internals@[j].dimensions.width,
            exists|j: int|
                0 <= j < i && max_y == (#[trigger] internals@[j]).position_absolute.y
                    + internals@[j].dimensions.height,
        decreases internals@.len() - i,
    {
        proof {
            let n0 = internals@[i as int];
            assert(n0.position_absolute.x == internals@[i as int].position_absolute.x);
        }
        let px = internals[i].position_absolute.x;
        let py = internals[i].position_absolute.y;
        let w = internals[i].dimensions.width;
        let h = internals[i].dimensions.height;
        if px < min_x {
            min_x = px;
        }
        if py < min_y {
            min_y = py;
        }
        if px + w > max_x {
            max_x = px + w;
        }
        if py + h > max_y {
            max_y = py + h;
        }
        i = i + 1;
    }
    Rect { x: min_x, y: min_y, width: max_x - min_x, height: max_y - min_y }
}

} // verus!
