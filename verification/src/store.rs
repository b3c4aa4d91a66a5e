//! The owned flow state: node and edge lists, derived per-node state, the
//! viewport, gesture state, and the error channel.  Every mutation goes
//! through the methods here; hosts read the public fields.

use vstd::prelude::*;
use crate::change::{
    apply_edge_changes, apply_edge_changes_spec, apply_node_changes, apply_node_changes_spec,
    find_node_index, find_node_position, EdgeChange, NodeChange,
};
use crate::config::{AriaLabelConfig, ColorMode, FlowError, ZIndexMode};
use crate::connection::{ConnectionLineType, ConnectionMode, ConnectionState};
use crate::edge::Edge;
use crate::geometry::{Rect, XYPosition};
use crate::handle::{bounds_view, clone_opt_bounds, HandleBounds};
use crate::node::{
    node_dimensions_spec, CoordinateExtent, InternalNode, Node, DEFAULT_NODE_HEIGHT,
};
use crate::num::{
    clamp_spec, coord_ok, size_ok, zoom_ok, COORD_MAX, MILLE, ZOOM_UNIT,
};
use crate::selection::SelectionMode;
use crate::viewport::{extent_ok, viewport_wf, Viewport};

verus! {

broadcast use vstd::set::group_set_axioms;

/// The state of an in-progress node drag: the node the gesture started on,
/// the pointer's flow position at the press, and each dragged node's start
/// position.
#[derive(PartialEq, Debug)]
pub struct NodeDragState {
    pub origin_node_id: String,
    pub start_pointer: XYPosition,
    pub nodes: Vec<(String, XYPosition)>,
    pub started: bool,
}

/// The whole editor state.
pub struct FlowState<N, E> {
    /// The node list, the canonical order of the graph.  Ids are expected to
    /// be unique; with a duplicated id, every lookup here addresses the
    /// first node carrying it.
    pub nodes: Vec<Node<N>>,
    /// The edge list.
    pub edges: Vec<Edge<E>>,
    /// Derived state of the node at the same index of `nodes`.
    pub internals: Vec<InternalNode>,
    /// The current view transform.
    pub viewport: Viewport,
    /// Pane width, in screen units.
    pub width: i64,
    /// Pane height, in screen units.
    pub height: i64,
    /// Smallest zoom the controller will set.
    pub min_zoom: i64,
    /// Largest zoom the controller will set.
    pub max_zoom: i64,
    /// Flow-space region panning may show, when finite.
    pub translate_extent: Option<CoordinateExtent>,
    /// Default positional constraint for nodes.
    pub node_extent: Option<CoordinateExtent>,
    /// Fraction of a node's size used as its anchor, in per-mille.
    pub node_origin: (i64, i64),
    /// The in-progress connection gesture.
    pub connection: ConnectionState,
    /// Whether only opposite handle types may connect.
    pub connection_mode: ConnectionMode,
    /// Screen distance within which a handle snaps a connection drag.
    pub connection_radius: i64,
    /// Screen distance within which an edge end can be grabbed to reconnect.
    pub reconnect_radius: i64,
    /// Screen distance a press must move before a connection drag starts.
    pub connection_drag_threshold: i64,
    /// Flow distance a press must move before a node drag starts.
    pub node_drag_threshold: i64,
    /// Path style of the in-progress connection line.
    pub connection_line_type: ConnectionLineType,
    /// Whether a marquee must contain or merely touch a node.
    pub selection_mode: SelectionMode,
    /// Padding around the pane for visibility queries, in per-mille.
    pub visible_area_padding: i64,
    /// Snap dragged nodes to the grid.
    pub snap_to_grid: bool,
    /// The grid pitch, in flow units.
    pub snap_grid: (i64, i64),
    /// A marquee gesture is active.
    pub user_selection_active: bool,
    /// The marquee rectangle while a gesture is active.
    pub user_selection_rect: Option<Rect>,
    /// The flow point the marquee gesture started at.
    pub selection_start: Option<XYPosition>,
    /// The marquee keeps previously selected elements selected.
    pub selection_additive: bool,
    /// Several elements are selected together.
    pub multi_selection_active: bool,
    /// A pan gesture is active.
    pub panning: bool,
    /// The screen point the pan started at.
    pub pan_start: Option<XYPosition>,
    /// The viewport when the pan started.
    pub pan_start_viewport: Viewport,
    /// The in-progress node drag.
    pub node_drag: Option<NodeDragState>,
    /// Generation counter for viewport animations; a tick of a stale
    /// generation is ignored.
    pub animation_generation: u64,
    /// Recoverable faults since the host last drained them.
    pub errors: Vec<FlowError>,
    /// Color scheme the host applies.
    pub color_mode: ColorMode,
    /// How z-indices are assigned.
    pub z_index_mode: ZIndexMode,
    /// Accessibility labels the host reads.
    pub aria_label_config: AriaLabelConfig,
    /// Whether nodes may be dragged at all.
    pub nodes_draggable: bool,
    /// Whether handles accept connections at all.
    pub nodes_connectable: bool,
    /// Whether nodes and edges may be selected at all.
    pub elements_selectable: bool,
    /// Whether edge ends may be dragged to reconnect.
    pub edges_reconnectable: bool,
    /// Whether the host should draw only the visible nodes.
    pub only_render_visible_elements: bool,
}

/// The configuration part of the invariant: the viewport and its limits
/// representable and ordered, sizes, extents, origin, radii, thresholds and
/// grid in range.
pub open spec fn config_wf<N, E>(s: FlowState<N, E>) -> bool {
    &&& viewport_wf(s.viewport)
    &&& zoom_ok(s.min_zoom as int)
    &&& zoom_ok(s.max_zoom as int)
    &&& s.min_zoom <= s.max_zoom
    &&& s.min_zoom <= s.viewport.zoom <= s.max_zoom
    &&& size_ok(s.width as int)
    &&& size_ok(s.height as int)
    &&& (s.translate_extent is Some ==> extent_ok(s.translate_extent->0))
    &&& (s.node_extent is Some ==> extent_ok(s.node_extent->0))
    &&& 0 <= s.node_origin.0 <= MILLE
    &&& 0 <= s.node_origin.1 <= MILLE
    &&& 0 <= s.connection_radius
    &&& 0 <= s.reconnect_radius
    &&& 0 <= s.connection_drag_threshold
    &&& 0 <= s.node_drag_threshold
    &&& 0 <= s.visible_area_padding <= MILLE
    &&& s.snap_grid.0 >= 1
    &&& s.snap_grid.1 >= 1
}

/// The graph part of the invariant: derived state aligned with the node
/// list, ids matching, and every stored coordinate in the flow range.
pub open spec fn graph_wf<N, E>(s: FlowState<N, E>) -> bool {
    &&& s.internals@.len() == s.nodes@.len()
    &&& crate::graph::nodes_coords_ok(s.nodes@)
    &&& forall|i: int|
        0 <= i < s.internals@.len() ==> (#[trigger] s.internals@[i]).id@ == s.nodes@[i].id@
    &&& forall|i: int|
        0 <= i < s.internals@.len() ==> coord_ok(
            #[trigger] s.internals@[i].position_absolute.x as int,
        ) && coord_ok(s.internals@[i].position_absolute.y as int) && coord_ok(
            s.internals@[i].dimensions.width as int,
        ) && coord_ok(s.internals@[i].dimensions.height as int)
    &&& internal_bounds_ok(s.internals@)
}

/// The structural invariant of the state.
pub open spec fn flow_state_wf<N, E>(s: FlowState<N, E>) -> bool {
    config_wf(s) && graph_wf(s)
}

/// The anchored local position of a node: its position, shifted by the
/// origin fraction of its size.
pub open spec fn base_position_x<T>(nodes: Seq<Node<T>>, origin: (int, int), i: int) -> int {
    nodes[i].position.x - node_dimensions_spec(nodes[i]).width * origin.0 / (MILLE as int)
}

pub open spec fn base_position_y<T>(nodes: Seq<Node<T>>, origin: (int, int), i: int) -> int {
    nodes[i].position.y - node_dimensions_spec(nodes[i]).height * origin.1 / (MILLE as int)
}

/// Index of the node a node names as parent; `-1` for none or unknown.
pub open spec fn parent_index_of<T>(nodes: Seq<Node<T>>, i: int) -> int {
    match nodes[i].parent_id {
        Some(pid) => find_node_index(nodes, pid@),
        None => -1,
    }
}

/// Walk up the parent chain from node `i`, nodes in `seen` already visited:
/// whether the chain closes a cycle, and the anchored offsets summed along
/// it.
pub open spec fn abs_walk<T>(
    nodes: Seq<Node<T>>,
    origin: (int, int),
    i: int,
    seen: Set<int>,
) -> (bool, int, int)
    decreases nodes.len() - seen.len(),
    when (seen.finite() && seen.subset_of(Set::new(|j: int| 0 <= j < nodes.len())) && 0 <= i
        < nodes.len() && !seen.contains(i))
    via abs_walk_decreases::<T>
{
    let bx = base_position_x(nodes, origin, i);
    let by = base_position_y(nodes, origin, i);
    let p = parent_index_of(nodes, i);
    if p < 0 || p >= nodes.len() {
        (false, bx, by)
    } else if p == i || seen.contains(p) {
        (true, bx, by)
    } else {
        let r = abs_walk(nodes, origin, p, seen.insert(i));
        (r.0, bx + r.1, by + r.2)
    }
}

#[via_fn]
proof fn abs_walk_decreases<T>(nodes: Seq<Node<T>>, origin: (int, int), i: int, seen: Set<int>) {
    let range = Set::new(|j: int| 0 <= j < nodes.len());
    assert(range =~= vstd::set_lib::set_int_range(0, nodes.len() as int));
    vstd::set_lib::lemma_int_range(0, nodes.len() as int);
    if seen.finite() && seen.subset_of(range) && 0 <= i < nodes.len() && !seen.contains(i) {
        assert(seen.insert(i).len() == seen.len() + 1);
        vstd::set_lib::lemma_len_subset(seen.insert(i), range);
    }
}

/// A node's parent chain closes a cycle.
pub open spec fn has_parent_cycle<T>(nodes: Seq<Node<T>>, i: int) -> bool {
    abs_walk(nodes, (0, 0), i, Set::empty()).0
}

/// A node's absolute position: the anchored offsets summed along its parent
/// chain, clamped into the flow range; a node whose chain closes a cycle
/// falls back to its own anchored local position.
pub open spec fn abs_position_spec<T>(nodes: Seq<Node<T>>, origin: (int, int), i: int) -> (
    int,
    int,
) {
    let w = abs_walk(nodes, origin, i, Set::empty());
    let raw = if w.0 {
        (base_position_x(nodes, origin, i), base_position_y(nodes, origin, i))
    } else {
        (w.1, w.2)
    };
    (
        clamp_spec(raw.0, -COORD_MAX as int, COORD_MAX as int),
        clamp_spec(raw.1, -COORD_MAX as int, COORD_MAX as int),
    )
}

/// The walk of a node's chain under one origin has the same cycle flag as
/// under another: the flag depends on the ids alone.
proof fn lemma_walk_cycle_origin<T>(
    nodes: Seq<Node<T>>,
    o1: (int, int),
    o2: (int, int),
    i: int,
    seen: Set<int>,
)
    requires
        seen.finite(),
        seen.subset_of(Set::new(|j: int| 0 <= j < nodes.len())),
        0 <= i < nodes.len(),
        !seen.contains(i),
    ensures
        abs_walk(nodes, o1, i, seen).0 == abs_walk(nodes, o2, i, seen).0,
    decreases nodes.len() - seen.len(),
{
    let p = parent_index_of(nodes, i);
    if p < 0 || p >= nodes.len() {
    } else if p == i || seen.contains(p) {
    } else {
        let range = Set::new(|j: int| 0 <= j < nodes.len());
        assert(range =~= vstd::set_lib::set_int_range(0, nodes.len() as int));
        vstd::set_lib::lemma_int_range(0, nodes.len() as int);
        assert(seen.insert(i).len() == seen.len() + 1);
        vstd::set_lib::lemma_len_subset(seen.insert(i), range);
        assert(seen.insert(i).finite());
        assert(seen.insert(i).subset_of(range));
        lemma_walk_cycle_origin(nodes, o1, o2, p, seen.insert(i));
    }
}

/// Clamp a wide coordinate into the flow range.
fn clamp_coord_i128(v: i128) -> (r: i64)
    ensures
        r == clamp_spec(v as int, -COORD_MAX as int, COORD_MAX as int),
{
    if v < -COORD_MAX as i128 {
        -COORD_MAX
    } else if v > COORD_MAX as i128 {
        COORD_MAX
    } else {
        v as i64
    }
}

/// Compute the anchored local position of one node, exact in flow units.
fn base_position<T>(nodes: &Vec<Node<T>>, origin: (i64, i64), i: usize) -> (r: (i64, i64))
    requires
        i < nodes@.len(),
        crate::graph::nodes_coords_ok(nodes@),
        0 <= origin.0 <= MILLE,
        0 <= origin.1 <= MILLE,
    ensures
        r.0 == base_position_x(nodes@, (origin.0 as int, origin.1 as int), i as int),
        r.1 == base_position_y(nodes@, (origin.0 as int, origin.1 as int), i as int),
        -2 * COORD_MAX <= r.0 <= 2 * COORD_MAX,
        -2 * COORD_MAX <= r.1 <= 2 * COORD_MAX,
{
    proof {
        assert(crate::graph::node_coords_ok(nodes@[i as int]));
    }
    let dims = nodes[i].get_dimensions();
    let ox = crate::num::div_floor(crate::num::mul_i64(dims.width, origin.0), MILLE);
    let oy = crate::num::div_floor(crate::num::mul_i64(dims.height, origin.1), MILLE);
    proof {
        let w = node_dimensions_spec(nodes@[i as int]).width as int;
        let h = node_dimensions_spec(nodes@[i as int]).height as int;
        lemma_origin_scale_bound(w, origin.0 as int);
        lemma_origin_scale_bound(h, origin.1 as int);
    }
    (nodes[i].position.x - ox, nodes[i].position.y - oy)
}

/// The origin fraction of an in-range size stays in range.
proof fn lemma_origin_scale_bound(w: int, o: int)
    requires
        -COORD_MAX <= w <= COORD_MAX,
        0 <= o <= MILLE,
    ensures
        -COORD_MAX <= w * o / (MILLE as int) <= COORD_MAX,
{
    let m = MILLE as int;
    vstd::arithmetic::div_mod::lemma_fundamental_div_mod(w * o, m);
    assert(-COORD_MAX as int * m <= w * o <= COORD_MAX as int * m) by (nonlinear_arith)
        requires
            -COORD_MAX <= w <= COORD_MAX,
            0 <= o <= m,
            m >= 1,
    {
    }
    assert(-COORD_MAX <= w * o / m <= COORD_MAX) by (nonlinear_arith)
        requires
            -COORD_MAX as int * m <= w * o <= COORD_MAX as int * m,
            m >= 1,
            w * o == m * (w * o / m) + (w * o) % m,
            0 <= ((w * o) % m) < m,
    {
    }
}

/// Resolve one node's absolute position by walking its parent chain with a
/// visited set; a cycle is reported rather than followed.
fn compute_absolute_position<T>(nodes: &Vec<Node<T>>, origin: (i64, i64), start: usize) -> (r: (
    XYPosition,
    bool,
))
    requires
        start < nodes@.len(),
        crate::graph::nodes_coords_ok(nodes@),
        0 <= origin.0 <= MILLE,
        0 <= origin.1 <= MILLE,
    ensures
        ({
            let s = abs_position_spec(
                nodes@,
                (origin.0 as int, origin.1 as int),
                start as int,
            );
            &&& r.0.x == s.0
            &&& r.0.y == s.1
            &&& r.1 == abs_walk(
                nodes@,
                (origin.0 as int, origin.1 as int),
                start as int,
                Set::empty(),
            ).0
            &&& coord_ok(r.0.x as int)
            &&& coord_ok(r.0.y as int)
        }),
{
    let ghost origin_int = (origin.0 as int, origin.1 as int);
    let mut visited: Vec<bool> = Vec::new();
    let mut k: usize = 0;
    while k < nodes.len()
        invariant
            k <= nodes@.len(),
            visited@.len() == k,
            forall|j: int| 0 <= j < k ==> !(#[trigger] visited@[j]),
        decreases nodes@.len() - k,
    {
        visited.push(false);
        k = k + 1;
    }
    let ghost empty_seen = Set::<int>::empty();
    proof {
        assert(empty_seen =~= Set::new(|j: int| 0 <= j < nodes@.len() && visited@[j]));
    }
    let mut seen_count: usize = 0;
    let mut cur: usize = start;
    let mut sum_x: i128 = 0;
    let mut sum_y: i128 = 0;
    let mut cycle: bool = false;
    let mut done: bool = false;
    let ghost whole = abs_walk(nodes@, origin_int, start as int, empty_seen);
    let n = nodes.len();
    proof {
        assert(nodes@.len() == n);
    }
    while !done
        invariant
            crate::graph::nodes_coords_ok(nodes@),
            0 <= origin.0 <= MILLE,
            0 <= origin.1 <= MILLE,
            start < nodes@.len(),
            nodes@.len() <= usize::MAX,
            visited@.len() == nodes@.len(),
            whole == abs_walk(nodes@, origin_int, start as int, empty_seen),
            origin_int == (origin.0 as int, origin.1 as int),
            seen_count <= nodes@.len(),
            !done ==> {
                let seen = Set::new(|j: int| 0 <= j < nodes@.len() && visited@[j]);
                &&& cur < nodes@.len()
                &&& !visited@[cur as int]
                &&& seen.finite()
                &&& seen.subset_of(Set::new(|j: int| 0 <= j < nodes@.len()))
                &&& seen.len() == seen_count
                &&& {
                    let rest = abs_walk(nodes@, origin_int, cur as int, seen);
                    whole == (rest.0, sum_x + rest.1, sum_y + rest.2)
                }
            },
            done ==> cycle == whole.0,
            done ==> !cycle ==> ((sum_x as int, sum_y as int) == (whole.1, whole.2)),
            -0x80_0000_0000 * (seen_count as int) <= sum_x <= 0x80_0000_0000 * (
            seen_count as int),
            -0x80_0000_0000 * (seen_count as int) <= sum_y <= 0x80_0000_0000 * (
            seen_count as int),
        decreases nodes@.len() - seen_count, 1int - (if done { 1int } else { 0int }),
    {
        let ghost seen = Set::new(|j: int| 0 <= j < nodes@.len() && visited@[j]);
        let ghost rest = abs_walk(nodes@, origin_int, cur as int, seen);
        let (bx, by) = base_position(nodes, origin, cur);
        proof {
            let k = seen_count as int;
            assert(k <= 0xffff_ffff_ffff_ffff);
            assert((k + 1) * 0x80_0000_0000 == k * 0x80_0000_0000 + 0x80_0000_0000)
                by (nonlinear_arith);
            assert((k + 1) * 0x80_0000_0000 <= 0x8_0000_0000_0000_0000_0000_0000_0000)
                by (nonlinear_arith)
                requires
                    0 <= k <= 0xffff_ffff_ffff_ffff,
            {
            }
        }
        let new_sum_x: i128 = sum_x + (bx as i128);
        let new_sum_y: i128 = sum_y + (by as i128);
        let parent: Option<usize> = match &nodes[cur].parent_id {
            Some(pid) => find_node_position(nodes, pid),
            None => None,
        };
        let ghost seen2 = seen.insert(cur as int);
        proof {
            assert(seen2 =~= Set::new(
                |j: int| 0 <= j < nodes@.len() && visited@.update(cur as int, true)[j],
            ));
            let range = Set::new(|j: int| 0 <= j < nodes@.len());
            assert(range =~= vstd::set_lib::set_int_range(0, nodes@.len() as int));
            vstd::set_lib::lemma_int_range(0, nodes@.len() as int);
            assert(seen2.len() == seen.len() + 1);
            assert(seen2.subset_of(range));
            vstd::set_lib::lemma_len_subset(seen2, range);
            assert(seen2.len() <= nodes@.len());
            assert(seen_count < nodes@.len());
        }
        visited.set(cur, true);
        seen_count = seen_count + 1;
        match parent {
            None => {
                proof {
                    assert(parent_index_of(nodes@, cur as int) < 0 || parent_index_of(
                        nodes@,
                        cur as int,
                    ) >= nodes@.len());
                    assert(rest.0 == false && rest.1 == bx as int && rest.2 == by as int);
                }
                sum_x = new_sum_x;
                sum_y = new_sum_y;
                cycle = false;
                done = true;
            },
            Some(p) => {
                proof {
                    assert(parent_index_of(nodes@, cur as int) == p as int);
                }
                let was_seen = visited[p];
                if was_seen {
                    proof {
                        if p == cur {
                            assert(rest.0 == true);
                        } else {
                            assert(seen.contains(p as int) || p == cur || visited@.update(
                                cur as int,
                                true,
                            )[p as int]);
                            assert(rest.0 == true);
                        }
                    }
                    sum_x = new_sum_x;
                    sum_y = new_sum_y;
                    cycle = true;
                    done = true;
                } else {
                    proof {
                        assert(p != cur);
                        assert(!seen.contains(p as int));
                        let next = abs_walk(nodes@, origin_int, p as int, seen2);
                        assert(rest == (next.0, bx + next.1, by + next.2));
                    }
                    sum_x = new_sum_x;
                    sum_y = new_sum_y;
                    cur = p;
                }
            },
        }
    }
    if cycle {
        let (bx, by) = base_position(nodes, origin, start);
        proof {
            lemma_walk_cycle_origin(nodes@, origin_int, (0, 0), start as int, empty_seen);
        }
        (XYPosition { x: clamp_coord_i128(bx as i128), y: clamp_coord_i128(by as i128) }, true)
    } else {
        (XYPosition { x: clamp_coord_i128(sum_x), y: clamp_coord_i128(sum_y) }, false)
    }
}

/// Index of the first derived entry carrying `id`, scanning from `start`.
pub open spec fn find_internal_from(internals: Seq<InternalNode>, id: Seq<char>, start: int) -> int
    decreases internals.len() - start,
{
    if start < 0 || start >= internals.len() {
        -1
    } else if internals[start].id@ == id {
        start
    } else {
        find_internal_from(internals, id, start + 1)
    }
}

/// Index of the first derived entry carrying `id`; `-1` when there is none.
pub open spec fn find_internal_index(internals: Seq<InternalNode>, id: Seq<char>) -> int {
    find_internal_from(internals, id, 0)
}

/// Index of the first derived entry carrying `id`, or `None`.
pub fn find_internal_position(internals: &Vec<InternalNode>, id: &String) -> (r: Option<usize>)
    ensures
        match r {
            Some(i) => find_internal_index(internals@, id@) == i as int && i < internals@.len(),
            None => find_internal_index(internals@, id@) == -1,
        },
{
    let mut i: usize = 0;
    while i < internals.len()
        invariant
            i <= internals@.len(),
            find_internal_index(internals@, id@) == find_internal_from(internals@, id@, i as int),
        decreases internals@.len() - i,
    {
        if internals[i].id == *id {
            return Some(i);
        }
        i = i + 1;
    }
    None
}

/// The cycle errors a node list produces, one per node whose parent chain
/// closes a cycle, in node order from index `i`.
pub open spec fn cycle_errors_from<T>(nodes: Seq<Node<T>>, i: int) -> Seq<FlowError>
    decreases nodes.len() - i,
{
    if i < 0 || i >= nodes.len() {
        Seq::empty()
    } else {
        let head: Seq<FlowError> = if has_parent_cycle(nodes, i) {
            seq![FlowError::ParentCycle { node_id: nodes[i].id }]
        } else {
            Seq::empty()
        };
        head + cycle_errors_from(nodes, i + 1)
    }
}

/// What replacing the node list establishes: the list stored, derived state
/// rebuilt — ids aligned, sizes resolved, absolute positions walked through
/// the parent chains — measured handle boxes carried over by id from the
/// previous derived state, one error recorded per cycle, and every other
/// field untouched.
pub open spec fn set_nodes_post<N, E>(
    prev: FlowState<N, E>,
    next: FlowState<N, E>,
    nodes: Seq<Node<N>>,
) -> bool {
    let origin = (prev.node_origin.0 as int, prev.node_origin.1 as int);
    &&& next.nodes@ == nodes
    &&& next.internals@.len() == nodes.len()
    &&& forall|i: int|
        0 <= i < nodes.len() ==> (#[trigger] next.internals@[i]).id == nodes[i].id
    &&& forall|i: int|
        0 <= i < nodes.len() ==> (#[trigger] next.internals@[i]).dimensions
            == node_dimensions_spec(nodes[i])
    &&& forall|i: int|
        0 <= i < nodes.len() ==> {
            let p = abs_position_spec(nodes, origin, i);
            (#[trigger] next.internals@[i]).position_absolute.x == p.0
                && next.internals@[i].position_absolute.y == p.1
        }
    &&& forall|i: int|
        0 <= i < nodes.len() ==> bounds_view((#[trigger] next.internals@[i]).handle_bounds) == {
            let j = find_internal_index(prev.internals@, nodes[i].id@);
            if j >= 0 {
                bounds_view(prev.internals@[j].handle_bounds)
            } else {
                None
            }
        }
    &&& next.errors@ == prev.errors@ + cycle_errors_from(nodes, 0)
    &&& next == (FlowState {
        nodes: next.nodes,
        internals: next.internals,
        errors: next.errors,
        ..prev
    })
}

/// Every stored handle box is in the flow range.
pub open spec fn internal_bounds_ok(internals: Seq<InternalNode>) -> bool {
    forall|i: int|
        0 <= i < internals.len() ==> match bounds_view(#[trigger] internals[i].handle_bounds) {
            Some(b) => handle_list_ok(b.0) && handle_list_ok(b.1),
            None => true,
        }
}

pub open spec fn handle_list_ok(handles: Seq<crate::handle::HandleBound>) -> bool {
    forall|k: int|
        0 <= k < handles.len() ==> coord_ok((#[trigger] handles[k]).x as int) && coord_ok(
            handles[k].y as int,
        ) && coord_ok(handles[k].width as int) && coord_ok(handles[k].height as int)
}

impl<N, E> FlowState<N, E> {
    /// A fresh state: empty graph, identity viewport, and the defaults of
    /// the interaction configuration.
    pub fn new() -> (r: Self)
        ensures
            r.nodes@.len() == 0,
            r.edges@.len() == 0,
            r.internals@.len() == 0,
            r.viewport == (Viewport { x: 0, y: 0, zoom: ZOOM_UNIT }),
            r.width == 0 && r.height == 0,
            r.min_zoom == 500 && r.max_zoom == 2000,
            r.translate_extent is None && r.node_extent is None,
            r.node_origin == (0i64, 0i64),
            r.connection == crate::connection::idle_connection_state(),
            r.connection_mode == ConnectionMode::Strict,
            r.connection_radius == 20 * ZOOM_UNIT,
            r.reconnect_radius == 10 * ZOOM_UNIT,
            r.connection_drag_threshold == ZOOM_UNIT,
            r.node_drag_threshold == 1,
            r.connection_line_type == ConnectionLineType::Bezier,
            r.selection_mode == SelectionMode::Partial,
            r.visible_area_padding == 200,
            !r.snap_to_grid && r.snap_grid == (15i64, 15i64),
            !r.user_selection_active && r.user_selection_rect is None,
            r.selection_start is None && !r.selection_additive,
            !r.multi_selection_active,
            !r.panning && r.pan_start is None,
            r.node_drag is None,
            r.animation_generation == 0,
            r.errors@.len() == 0,
            flow_state_wf(r),
    {
        FlowState {
            nodes: Vec::new(),
            edges: Vec::new(),
            internals: Vec::new(),
            viewport: Viewport { x: 0, y: 0, zoom: ZOOM_UNIT },
            width: 0,
            height: 0,
            min_zoom: 500,
            max_zoom: 2000,
            translate_extent: None,
            node_extent: None,
            node_origin: (0, 0),
            connection: ConnectionState::default(),
            connection_mode: ConnectionMode::Strict,
            connection_radius: 20 * ZOOM_UNIT,
            reconnect_radius: 10 * ZOOM_UNIT,
            connection_drag_threshold: ZOOM_UNIT,
            node_drag_threshold: 1,
            connection_line_type: ConnectionLineType::Bezier,
            selection_mode: SelectionMode::Partial,
            visible_area_padding: 200,
            snap_to_grid: false,
            snap_grid: (15, 15),
            user_selection_active: false,
            user_selection_rect: None,
            selection_start: None,
            selection_additive: false,
            multi_selection_active: false,
            panning: false,
            pan_start: None,
            pan_start_viewport: Viewport { x: 0, y: 0, zoom: ZOOM_UNIT },
            node_drag: None,
            animation_generation: 0,
            errors: Vec::new(),
            color_mode: ColorMode::Light,
            z_index_mode: ZIndexMode::Basic,
            aria_label_config: AriaLabelConfig::default(),
            nodes_draggable: true,
            nodes_connectable: true,
            elements_selectable: true,
            edges_reconnectable: true,
            only_render_visible_elements: false,
        }
    }

    /// Replace the node list and rebuild the derived state.
    pub fn set_nodes(&mut self, nodes: Vec<Node<N>>)
        requires
            config_wf(*old(self)),
            internal_bounds_ok(old(self).internals@),
            crate::graph::nodes_coords_ok(nodes@),
        ensures
            set_nodes_post(*old(self), *final(self), nodes@),
            config_wf(*final(self)),
            graph_wf(*final(self)),
    {
        let ghost origin_int = (self.node_origin.0 as int, self.node_origin.1 as int);
        let mut internals: Vec<InternalNode> = Vec::new();
        let mut new_errors: Vec<FlowError> = Vec::new();
        let mut i: usize = 0;
        while i < nodes.len()
            invariant
                i <= nodes@.len(),
                config_wf(*self),
                internal_bounds_ok(self.internals@),
                crate::graph::nodes_coords_ok(nodes@),
                origin_int == (self.node_origin.0 as int, self.node_origin.1 as int),
                internals@.len() == i,
                forall|j: int|
                    0 <= j < i ==> (#[trigger] internals@[j]).id == nodes@[j].id,
                forall|j: int|
                    0 <= j < i ==> (#[trigger] internals@[j]).dimensions == node_dimensions_spec(
                        nodes@[j],
                    ),
                forall|j: int|
                    0 <= j < i ==> {
                        let p = abs_position_spec(nodes@, origin_int, j);
                        (#[trigger] internals@[j]).position_absolute.x == p.0
                            && internals@[j].position_absolute.y == p.1
                    },
                forall|j: int|
                    0 <= j < i ==> coord_ok(
                        (#[trigger] internals@[j]).position_absolute.x as int,
                    ) && coord_ok(internals@[j].position_absolute.y as int) && coord_ok(
                        internals@[j].dimensions.width as int,
                    ) && coord_ok(internals@[j].dimensions.height as int),
                internal_bounds_ok(internals@),
                forall|j: int|
                    0 <= j < i ==> bounds_view((#[trigger] internals@[j]).handle_bounds) == {
                        let k = find_internal_index(self.internals@, nodes@[j].id@);
                        if k >= 0 {
                            bounds_view(self.internals@[k].handle_bounds)
                        } else {
                            None
                        }
                    },
                cycle_errors_from(nodes@, 0) == new_errors@ + cycle_errors_from(nodes@, i as int),
            decreases nodes@.len() - i,
        {
            let ghost before_errors = new_errors@;
            let (pos, cycle) = compute_absolute_position(&nodes, self.node_origin, i);
            let dims = nodes[i].get_dimensions();
            let hb = match find_internal_position(&self.internals, &nodes[i].id) {
                Some(j) => clone_opt_bounds(&self.internals[j].handle_bounds),
                None => None,
            };
            internals.push(
                InternalNode {
                    id: nodes[i].id.clone(),
                    position_absolute: pos,
                    dimensions: dims,
                    handle_bounds: hb,
                },
            );
            if cycle {
                new_errors.push(FlowError::ParentCycle { node_id: nodes[i].id.clone() });
            }
            proof {
                assert(crate::graph::node_coords_ok(nodes@[i as int]));
                assert(internal_bounds_ok(internals@)) by {
                    assert(forall|j: int|
                        0 <= j < internals@.len() - 1 ==> #[trigger] internals@[j]
                            == internals@.subrange(0, internals@.len() - 1)[j]);
                }
            }
            proof {
                lemma_walk_cycle_origin(nodes@, origin_int, (0, 0), i as int, Set::empty());
                let tail = cycle_errors_from(nodes@, i as int + 1);
                if has_parent_cycle(nodes@, i as int) {
                    let c = FlowError::ParentCycle { node_id: nodes@[i as int].id };
                    assert(new_errors@ =~= before_errors + seq![c]);
                    assert((before_errors + seq![c]) + tail =~= before_errors + (seq![c] + tail));
                } else {
                    assert(before_errors + (Seq::<FlowError>::empty() + tail) =~= before_errors
                        + tail);
                }
            }
            i = i + 1;
        }
        proof {
            assert(cycle_errors_from(nodes@, nodes@.len() as int) =~= Seq::<FlowError>::empty());
            assert(new_errors@ + Seq::<FlowError>::empty() =~= new_errors@);
        }
        self.nodes = nodes;
        self.internals = internals;
        let mut k: usize = 0;
        let ghost pre = *self;
        while k < new_errors.len()
            invariant
                k <= new_errors@.len(),
                self.errors@ =~= pre.errors@ + new_errors@.subrange(0, k as int),
                (*self) == (FlowState { errors: self.errors, ..pre }),
            decreases new_errors@.len() - k,
        {
            let e = new_errors[k].clone();
            self.errors.push(e);
            proof {
                assert(self.errors@ =~= pre.errors@ + new_errors@.subrange(0, k as int + 1));
            }
            k = k + 1;
        }
        proof {
            assert(new_errors@.subrange(0, new_errors@.len() as int) =~= new_errors@);
            assert(self.errors@ =~= pre.errors@ + new_errors@);
        }
    }

    /// Replace the edge list.
    pub fn set_edges(&mut self, edges: Vec<Edge<E>>)
        ensures
            final(self).edges@ == edges@,
            *final(self) == (FlowState { edges: final(self).edges, ..*old(self) }),
    {
        self.edges = edges;
    }

    /// Set both lists at once.
    pub fn init(&mut self, nodes: Vec<Node<N>>, edges: Vec<Edge<E>>)
        requires
            config_wf(*old(self)),
            internal_bounds_ok(old(self).internals@),
            crate::graph::nodes_coords_ok(nodes@),
        ensures
            flow_state_wf(*final(self)),
            final(self).edges@ == edges@,
            set_nodes_post(
                *old(self),
                (FlowState { edges: old(self).edges, ..*final(self) }),
                nodes@,
            ),
    {
        let ghost prev = *self;
        self.set_nodes(nodes);
        let ghost mid = *self;
        self.set_edges(edges);
        proof {
            assert(mid.edges == prev.edges);
            assert((FlowState { edges: prev.edges, ..*self }) == mid);
        }
    }

    /// The first node with the id, if any.
    pub fn get_node(&self, id: &String) -> (r: Option<&Node<N>>)
        ensures
            match r {
                Some(n) => find_node_index(self.nodes@, id@) >= 0 && *n == self.nodes@[
                    find_node_index(self.nodes@, id@)
                ],
                None => find_node_index(self.nodes@, id@) == -1,
            },
    {
        match find_node_position(&self.nodes, id) {
            Some(i) => Some(&self.nodes[i]),
            None => None,
        }
    }

    /// The first edge with the id, if any.
    pub fn get_edge(&self, id: &String) -> (r: Option<&Edge<E>>)
        ensures
            match r {
                Some(e) => crate::change::find_edge_index(self.edges@, id@) >= 0 && *e
                    == self.edges@[crate::change::find_edge_index(self.edges@, id@)],
                None => crate::change::find_edge_index(self.edges@, id@) == -1,
            },
    {
        match crate::change::find_edge_position(&self.edges, id) {
            Some(i) => Some(&self.edges[i]),
            None => None,
        }
    }

    /// The derived state of the first node with the id, if any.
    pub fn get_internal_node(&self, id: &String) -> (r: Option<&InternalNode>)
        ensures
            match r {
                Some(n) => find_internal_index(self.internals@, id@) >= 0 && *n == self.internals@[
                    find_internal_index(self.internals@, id@)
                ],
                None => find_internal_index(self.internals@, id@) == -1,
            },
    {
        match find_internal_position(&self.internals, id) {
            Some(i) => Some(&self.internals[i]),
            None => None,
        }
    }

    /// Store the measured handle boxes of the node with the id; unknown ids
    /// are ignored.
    pub fn update_handle_bounds(&mut self, node_id: &String, bounds: HandleBounds)
        ensures
            ({
                let i = find_internal_index(old(self).internals@, node_id@);
                &&& i == -1 ==> *final(self) == *old(self)
                &&& i >= 0 ==> final(self).internals@ == old(self).internals@.update(
                    i,
                    InternalNode {
                        handle_bounds: final(self).internals@[i].handle_bounds,
                        ..old(self).internals@[i]
                    },
                ) && bounds_view(final(self).internals@[i].handle_bounds) == Some(bounds@)
                &&& *final(self) == (FlowState { internals: final(self).internals, ..*old(self) })
            }),
    {
        match find_internal_position(&self.internals, node_id) {
            Some(i) => {
                let entry = &mut self.internals[i];
                entry.handle_bounds = Some(bounds);
            },
            None => {},
        }
    }

    /// Apply a batch of node changes and rebuild the derived state.
    pub fn apply_node_changes(&mut self, changes: Vec<NodeChange<N>>)
        requires
            flow_state_wf(*old(self)),
            crate::graph::nodes_coords_ok(
                apply_node_changes_spec(changes@, old(self).nodes@),
            ),
        ensures
            flow_state_wf(*final(self)),
            set_nodes_post(
                *old(self),
                *final(self),
                apply_node_changes_spec(changes@, old(self).nodes@),
            ),
    {
        let mut taken: Vec<Node<N>> = Vec::new();
        core::mem::swap(&mut taken, &mut self.nodes);
        let next = apply_node_changes(changes, taken);
        let ghost mid = *self;
        self.set_nodes(next);
        proof {
            assert(mid == (FlowState { nodes: mid.nodes, ..*old(self) }));
            assert(mid.internals == old(self).internals);
            assert(mid.errors == old(self).errors);
            assert(set_nodes_post(mid, *self, apply_node_changes_spec(changes@, old(self).nodes@)));
            assert(*self == (FlowState {
                nodes: self.nodes,
                internals: self.internals,
                errors: self.errors,
                ..mid
            }));
            assert(*self == (FlowState {
                nodes: self.nodes,
                internals: self.internals,
                errors: self.errors,
                ..*old(self)
            }));
        }
    }

    /// Apply a batch of edge changes.
    pub fn apply_edge_changes(&mut self, changes: Vec<EdgeChange<E>>)
        ensures
            final(self).edges@ == apply_edge_changes_spec(changes@, old(self).edges@),
            *final(self) == (FlowState { edges: final(self).edges, ..*old(self) }),
    {
        let mut taken: Vec<Edge<E>> = Vec::new();
        core::mem::swap(&mut taken, &mut self.edges);
        let next = apply_edge_changes(changes, taken);
        self.edges = next;
    }
}


/// A change that cannot move a coordinate out of the flow range: flag and
/// selection changes, removals, and changes whose new coordinates are
/// themselves in range.
pub open spec fn change_coords_safe<T>(c: NodeChange<T>) -> bool {
    match c {
        NodeChange::Position { position, .. } => match position {
            Some(p) => coord_ok(p.x as int) && coord_ok(p.y as int),
            None => true,
        },
        NodeChange::Dimensions { dimensions, .. } => match dimensions {
            Some(d) => coord_ok(d.width as int) && coord_ok(d.height as int),
            None => true,
        },
        NodeChange::Selection { .. } => true,
        NodeChange::Remove { .. } => true,
        NodeChange::Add { node } => crate::graph::node_coords_ok(node),
        NodeChange::Replace { node, .. } => crate::graph::node_coords_ok(node),
    }
}

pub open spec fn changes_coords_safe<T>(cs: Seq<NodeChange<T>>) -> bool {
    forall|k: int| 0 <= k < cs.len() ==> change_coords_safe(#[trigger] cs[k])
}

/// Removing nodes by id keeps every remaining node in range.
proof fn lemma_remove_keeps_coords<T>(nodes: Seq<Node<T>>, id: Seq<char>)
    requires
        crate::graph::nodes_coords_ok(nodes),
    ensures
        crate::graph::nodes_coords_ok(crate::change::remove_nodes_with_id(nodes, id)),
    decreases nodes.len(),
{
    if nodes.len() == 0 {
    } else {
        assert(crate::graph::nodes_coords_ok(nodes.drop_first())) by {
            assert(forall|j: int|
                0 <= j < nodes.drop_first().len() ==> #[trigger] nodes.drop_first()[j] == nodes[j
                    + 1]);
        }
        lemma_remove_keeps_coords(nodes.drop_first(), id);
        let r = crate::change::remove_nodes_with_id(nodes, id);
        if nodes[0].id@ == id {
        } else {
            assert(crate::graph::node_coords_ok(nodes[0]));
            assert(forall|j: int|
                0 <= j < r.len() ==> #[trigger] crate::graph::node_coords_ok(r[j])) by {
                assert(forall|j: int|
                    1 <= j < r.len() ==> #[trigger] r[j] == crate::change::remove_nodes_with_id(
                        nodes.drop_first(),
                        id,
                    )[j - 1]);
            }
        }
    }
}

/// One safe change keeps every node in range.
proof fn lemma_step_keeps_coords<T>(c: NodeChange<T>, nodes: Seq<Node<T>>)
    requires
        crate::graph::nodes_coords_ok(nodes),
        change_coords_safe(c),
    ensures
        crate::graph::nodes_coords_ok(crate::change::node_change_step(c, nodes)),
{
    let r = crate::change::node_change_step(c, nodes);
    match c {
        NodeChange::Position { id, position, dragging } => {
            let i = find_node_index(nodes, id@);
            crate::change::lemma_find_node_is_first(nodes, id@);
            if i >= 0 {
                assert(crate::graph::node_coords_ok(nodes[i]));
                assert(crate::graph::node_coords_ok(r[i]));
                assert(forall|j: int|
                    0 <= j < r.len() && j != i ==> #[trigger] r[j] == nodes[j]);
            }
        },
        NodeChange::Dimensions { id, dimensions, resizing } => {
            let i = find_node_index(nodes, id@);
            crate::change::lemma_find_node_is_first(nodes, id@);
            if i >= 0 {
                assert(crate::graph::node_coords_ok(nodes[i]));
                assert(crate::graph::node_coords_ok(r[i]));
                assert(forall|j: int|
                    0 <= j < r.len() && j != i ==> #[trigger] r[j] == nodes[j]);
            }
        },
        NodeChange::Selection { id, selected } => {
            let i = find_node_index(nodes, id@);
            crate::change::lemma_find_node_is_first(nodes, id@);
            if i >= 0 {
                assert(crate::graph::node_coords_ok(nodes[i]));
                assert(crate::graph::node_coords_ok(r[i]));
                assert(forall|j: int|
                    0 <= j < r.len() && j != i ==> #[trigger] r[j] == nodes[j]);
            }
        },
        NodeChange::Remove { id } => {
            lemma_remove_keeps_coords(nodes, id@);
        },
        NodeChange::Add { node } => {
            assert(forall|j: int|
                0 <= j < nodes.len() ==> #[trigger] r[j] == nodes[j]);
        },
        NodeChange::Replace { id, node } => {
            let i = find_node_index(nodes, id@);
            crate::change::lemma_find_node_is_first(nodes, id@);
            if i >= 0 {
                assert(forall|j: int|
                    0 <= j < r.len() && j != i ==> #[trigger] r[j] == nodes[j]);
            }
        },
    }
}

/// Law: a batch of safe changes keeps every node coordinate in the flow
/// range — the reducer cannot move the graph out of the modeled world.
pub proof fn lemma_changes_keep_coords<T>(cs: Seq<NodeChange<T>>, nodes: Seq<Node<T>>)
    requires
        crate::graph::nodes_coords_ok(nodes),
        changes_coords_safe(cs),
    ensures
        crate::graph::nodes_coords_ok(apply_node_changes_spec(cs, nodes)),
    decreases cs.len(),
{
    if cs.len() == 0 {
    } else {
        lemma_step_keeps_coords(cs[0], nodes);
        assert(changes_coords_safe(cs.drop_first())) by {
            assert(forall|k: int|
                0 <= k < cs.drop_first().len() ==> #[trigger] cs.drop_first()[k] == cs[k + 1]);
        }
        lemma_changes_keep_coords(cs.drop_first(), crate::change::node_change_step(cs[0], nodes));
    }
}


/// The center of one measured handle box, in flow space.
pub open spec fn handle_center_spec(internal: InternalNode, h: crate::handle::HandleBound) -> (
    int,
    int,
) {
    (
        internal.position_absolute.x + h.x + h.width as int / 2,
        internal.position_absolute.y + h.y + h.height as int / 2,
    )
}

/// Index of the handle addressed by an optional id: the first handle with
/// that id, or the first handle at all when no id is given; `-1` when there
/// is none.
pub open spec fn find_handle_in(
    handles: Seq<crate::handle::HandleBound>,
    id: Option<String>,
    start: int,
) -> int
    decreases handles.len() - start,
{
    if start < 0 || start >= handles.len() {
        -1
    } else {
        match id {
            None => start,
            Some(wanted) => {
                if handles[start].id is Some && handles[start].id->0@ == wanted@ {
                    start
                } else {
                    find_handle_in(handles, id, start + 1)
                }
            },
        }
    }
}

/// The flow position of the addressed handle's center on a node, preferring
/// the measured handle boxes; `None` when nothing was measured or no handle
/// matches.
pub open spec fn resolve_handle_flow_spec(
    internal: InternalNode,
    handle_type: crate::handle::HandleType,
    handle_id: Option<String>,
) -> Option<(int, int)> {
    match bounds_view(internal.handle_bounds) {
        None => None,
        Some(b) => {
            let handles = if handle_type == crate::handle::HandleType::Source {
                b.0
            } else {
                b.1
            };
            let k = find_handle_in(handles, handle_id, 0);
            if k >= 0 {
                Some(handle_center_spec(internal, handles[k]))
            } else {
                None
            }
        },
    }
}

/// Index of the handle addressed by an optional id, or `None`.
fn find_handle_position(
    handles: &Vec<crate::handle::HandleBound>,
    handle_id: &Option<String>,
) -> (r: Option<usize>)
    ensures
        match r {
            Some(i) => find_handle_in(handles@, *handle_id, 0) == i as int && i < handles@.len(),
            None => find_handle_in(handles@, *handle_id, 0) == -1,
        },
{
    let mut k: usize = 0;
    while k < handles.len()
        invariant
            k <= handles@.len(),
            find_handle_in(handles@, *handle_id, 0) == find_handle_in(
                handles@,
                *handle_id,
                k as int,
            ),
        decreases handles@.len() - k,
    {
        let hit = match handle_id {
            None => true,
            Some(wanted) => match &handles[k].id {
                Some(hid) => *hid == *wanted,
                None => false,
            },
        };
        if hit {
            return Some(k);
        }
        k = k + 1;
    }
    None
}

/// Resolve the addressed handle's center on a node.
pub fn resolve_handle_flow_position(
    internal: &InternalNode,
    handle_type: crate::handle::HandleType,
    handle_id: &Option<String>,
) -> (r: Option<XYPosition>)
    requires
        coord_ok(internal.position_absolute.x as int),
        coord_ok(internal.position_absolute.y as int),
        match bounds_view(internal.handle_bounds) {
            Some(b) => handle_list_ok(b.0) && handle_list_ok(b.1),
            None => true,
        },
    ensures
        match r {
            Some(p) => resolve_handle_flow_spec(*internal, handle_type, *handle_id) == Some(
                (p.x as int, p.y as int),
            ) && crate::num::span_ok(p.x as int) && crate::num::span_ok(p.y as int),
            None => resolve_handle_flow_spec(*internal, handle_type, *handle_id) is None,
        },
{
    match &internal.handle_bounds {
        None => None,
        Some(hb) => {
            let handles: &Vec<crate::handle::HandleBound> = match handle_type {
                crate::handle::HandleType::Source => &hb.source,
                crate::handle::HandleType::Target => &hb.target,
            };
            let found: Option<usize> = find_handle_position(handles, handle_id);
            match found {
                Some(i) => {
                    proof {
                        assert(handle_list_ok(handles@));
                        assert(coord_ok(handles@[i as int].x as int));
                    }
                    let h = &handles[i];
                    let cx = internal.position_absolute.x + h.x + crate::num::div_floor(h.width, 2);
                    let cy = internal.position_absolute.y + h.y + crate::num::div_floor(
                        h.height,
                        2,
                    );
                    Some(XYPosition { x: cx, y: cy })
                },
                None => None,
            }
        },
    }
}

/// The connection state after the viewport or derived state changed: a
/// snapped target keeps its handle's exact position in both spaces, a
/// free-floating cursor keeps its screen position and re-derives the flow
/// position; an idle state is untouched.
pub open spec fn refreshed_connection<N, E>(s: FlowState<N, E>) -> ConnectionState {
    if !s.connection.in_progress {
        s.connection
    } else {
        let resolved = if s.connection.to_node is Some && s.connection.to_type is Some {
            let j = find_internal_index(s.internals@, s.connection.to_node->0@);
            if j >= 0 {
                resolve_handle_flow_spec(
                    s.internals@[j],
                    s.connection.to_type->0,
                    s.connection.to_handle,
                )
            } else {
                None
            }
        } else {
            None
        };
        match resolved {
            Some(fp) => ConnectionState {
                to_position_screen: Some(
                    XYPosition {
                        x: crate::viewport::flow_to_screen_coord(
                            fp.0,
                            s.viewport.zoom as int,
                            s.viewport.x as int,
                        ) as i64,
                        y: crate::viewport::flow_to_screen_coord(
                            fp.1,
                            s.viewport.zoom as int,
                            s.viewport.y as int,
                        ) as i64,
                    },
                ),
                to_position: Some(XYPosition { x: fp.0 as i64, y: fp.1 as i64 }),
                ..s.connection
            },
            None => match s.connection.to_position_screen {
                Some(sp) => ConnectionState {
                    to_position_screen: Some(sp),
                    to_position: Some(
                        XYPosition {
                            x: crate::viewport::screen_to_flow_coord(
                                sp.x as int,
                                s.viewport.zoom as int,
                                s.viewport.x as int,
                            ) as i64,
                            y: crate::viewport::screen_to_flow_coord(
                                sp.y as int,
                                s.viewport.zoom as int,
                                s.viewport.y as int,
                            ) as i64,
                        },
                    ),
                    ..s.connection
                },
                None => s.connection,
            },
        }
    }
}

/// The gesture coordinates a well-formed state stores are in screen range.
pub open spec fn connection_coords_ok(c: ConnectionState) -> bool {
    &&& (c.to_position_screen is Some ==> crate::num::screen_ok(c.to_position_screen->0.x as int)
        && crate::num::screen_ok(c.to_position_screen->0.y as int))
    &&& (c.start_screen is Some ==> crate::num::screen_ok(c.start_screen->0.x as int)
        && crate::num::screen_ok(c.start_screen->0.y as int))
}

impl<N, E> FlowState<N, E> {
    /// Map a flow point to its screen point under the current viewport.
    pub fn flow_to_screen_position(&self, position: XYPosition) -> (r: XYPosition)
        requires
            config_wf(*self),
            crate::num::span_ok(position.x as int),
            crate::num::span_ok(position.y as int),
        ensures
            r.x == crate::viewport::flow_to_screen_coord(
                position.x as int,
                self.viewport.zoom as int,
                self.viewport.x as int,
            ),
            r.y == crate::viewport::flow_to_screen_coord(
                position.y as int,
                self.viewport.zoom as int,
                self.viewport.y as int,
            ),
            crate::num::screen_ok(r.x as int),
            crate::num::screen_ok(r.y as int),
    {
        crate::viewport::flow_to_screen_position(position, &self.viewport)
    }

    /// Map a screen point to the flow point it shows.
    pub fn screen_to_flow_position(&self, position: XYPosition) -> (r: XYPosition)
        requires
            config_wf(*self),
            crate::num::screen_ok(position.x as int),
            crate::num::screen_ok(position.y as int),
        ensures
            r.x == crate::viewport::screen_to_flow_coord(
                position.x as int,
                self.viewport.zoom as int,
                self.viewport.x as int,
            ),
            r.y == crate::viewport::screen_to_flow_coord(
                position.y as int,
                self.viewport.zoom as int,
                self.viewport.y as int,
            ),
    {
        crate::viewport::screen_to_flow_position(position, &self.viewport)
    }

    /// Clamp a viewport to the configured translate extent.
    pub fn clamp_viewport(&self, v: Viewport) -> (r: Viewport)
        requires
            config_wf(*self),
            viewport_wf(v),
        ensures
            r == crate::viewport::clamp_viewport_spec(
                v,
                self.translate_extent,
                self.width as int,
                self.height as int,
            ),
            viewport_wf(r),
            r.zoom == v.zoom,
    {
        crate::viewport::clamp_viewport(v, self.translate_extent, self.width, self.height)
    }

    /// Re-derive the tracked connection positions from the current viewport
    /// and derived state.
    #[verifier::rlimit(100)]
    pub fn refresh_connection_position(&mut self)
        requires
            config_wf(*old(self)),
            graph_wf(*old(self)),
            connection_coords_ok(old(self).connection),
        ensures
            final(self).connection == refreshed_connection(*old(self)),
            *final(self) == (FlowState { connection: final(self).connection, ..*old(self) }),
            connection_coords_ok(final(self).connection),
    {
        if !self.connection.in_progress {
            return ;
        }
        let resolved: Option<XYPosition> = match (&self.connection.to_node, &self.connection
            .to_type) {
            (Some(to_node), Some(to_type)) => {
                match find_internal_position(&self.internals, to_node) {
                    Some(j) => {
                        let t = *to_type;
                        proof {
                            assert(coord_ok(
                                self.internals@[j as int].position_absolute.x as int,
                            ));
                            assert(match bounds_view(self.internals@[j as int].handle_bounds) {
                                Some(b) => handle_list_ok(b.0) && handle_list_ok(b.1),
                                None => true,
                            });
                        }
                        resolve_handle_flow_position(
                            &self.internals[j],
                            t,
                            &self.connection.to_handle,
                        )
                    },
                    None => None,
                }
            },
            _ => None,
        };
        match resolved {
            Some(fp) => {
                let sp = crate::viewport::flow_to_screen_position(fp, &self.viewport);
                self.connection.update_screen_position(sp, fp);
            },
            None => {
                if let Some(sp) = self.connection.to_position_screen {
                    let fp = crate::viewport::screen_to_flow_position(sp, &self.viewport);
                    self.connection.update_screen_position(sp, fp);
                }
            },
        }
    }

    /// Apply a viewport and re-derive the tracked connection positions.
    fn commit_viewport(&mut self, v: Viewport)
        requires
            config_wf(*old(self)),
            graph_wf(*old(self)),
            connection_coords_ok(old(self).connection),
            viewport_wf(v),
            old(self).min_zoom <= v.zoom <= old(self).max_zoom,
        ensures
            final(self).viewport == v,
            final(self).connection == refreshed_connection(
                (FlowState { viewport: v, ..*old(self) }),
            ),
            *final(self) == (FlowState {
                viewport: v,
                connection: final(self).connection,
                ..*old(self)
            }),
            config_wf(*final(self)),
            graph_wf(*final(self)),
            connection_coords_ok(final(self).connection),
    {
        self.viewport = v;
        self.refresh_connection_position();
        proof {
            assert(self.nodes == old(self).nodes);
            assert(self.internals == old(self).internals);
            assert(graph_wf(*self));
        }
    }

    /// Pan by a screen-space delta, clamped to the translate extent.
    pub fn pan_by(&mut self, delta: XYPosition)
        requires
            config_wf(*old(self)),
            graph_wf(*old(self)),
            connection_coords_ok(old(self).connection),
            crate::num::translate_ok(delta.x as int),
            crate::num::translate_ok(delta.y as int),
        ensures
            ({
                let moved = Viewport {
                    x: crate::num::clamp_translate_spec(
                        old(self).viewport.x + delta.x,
                    ) as i64,
                    y: crate::num::clamp_translate_spec(
                        old(self).viewport.y + delta.y,
                    ) as i64,
                    zoom: old(self).viewport.zoom,
                };
                let v = crate::viewport::clamp_viewport_spec(
                    moved,
                    old(self).translate_extent,
                    old(self).width as int,
                    old(self).height as int,
                );
                &&& final(self).viewport == v
                &&& final(self).connection == refreshed_connection(
                    (FlowState { viewport: v, ..*old(self) }),
                )
                &&& *final(self) == (FlowState {
                    viewport: v,
                    connection: final(self).connection,
                    ..*old(self)
                })
            }),
            config_wf(*final(self)),
            graph_wf(*final(self)),
            connection_coords_ok(final(self).connection),
    {
        let moved = Viewport {
            x: crate::num::clamp_translate((self.viewport.x as i128) + (delta.x as i128)),
            y: crate::num::clamp_translate((self.viewport.y as i128) + (delta.y as i128)),
            zoom: self.viewport.zoom,
        };
        let v = self.clamp_viewport(moved);
        self.commit_viewport(v);
    }

    /// Zoom in by a factor in per-mille, clamped into the zoom range and to
    /// the translate extent.  The viewport's zoom always stays within
    /// `[min_zoom, max_zoom]`, whatever the factor.
    pub fn zoom_in(&mut self, factor: Option<i64>)
        requires
            config_wf(*old(self)),
            graph_wf(*old(self)),
            connection_coords_ok(old(self).connection),
            factor is Some ==> 1 <= factor->0 <= 1_000_000,
        ensures
            ({
                let f = if factor is Some {
                    factor->0 as int
                } else {
                    1200
                };
                let z = crate::num::clamp_spec(
                    old(self).viewport.zoom * f / (MILLE as int),
                    old(self).min_zoom as int,
                    old(self).max_zoom as int,
                );
                let v = crate::viewport::clamp_viewport_spec(
                    (Viewport { zoom: z as i64, ..old(self).viewport }),
                    old(self).translate_extent,
                    old(self).width as int,
                    old(self).height as int,
                );
                &&& final(self).viewport == v
                &&& *final(self) == (FlowState {
                    viewport: v,
                    connection: final(self).connection,
                    ..*old(self)
                })
            }),
            config_wf(*final(self)),
            graph_wf(*final(self)),
            connection_coords_ok(final(self).connection),
    {
        let f: i64 = match factor {
            Some(f) => f,
            None => 1200,
        };
        proof {
            assert(0 <= self.viewport.zoom as int * f <= 0x10_0000 * 1_000_000)
                by (nonlinear_arith)
                requires
                    1 <= self.viewport.zoom <= 0x10_0000,
                    1 <= f <= 1_000_000,
            {
            }
        }
        let scaled = crate::num::div_floor(self.viewport.zoom * f, MILLE);
        let z = crate::num::clamp_i64(scaled, self.min_zoom, self.max_zoom);
        let v = self.clamp_viewport(Viewport { x: self.viewport.x, y: self.viewport.y, zoom: z });
        self.commit_viewport(v);
    }

    /// Zoom out by a factor in per-mille, clamped into the zoom range and to
    /// the translate extent.  The viewport's zoom always stays within
    /// `[min_zoom, max_zoom]`, whatever the factor.
    pub fn zoom_out(&mut self, factor: Option<i64>)
        requires
            config_wf(*old(self)),
            graph_wf(*old(self)),
            connection_coords_ok(old(self).connection),
            factor is Some ==> 1 <= factor->0 <= 1_000_000,
        ensures
            ({
                let f = if factor is Some {
                    factor->0 as int
                } else {
                    1200
                };
                let z = crate::num::clamp_spec(
                    old(self).viewport.zoom * (MILLE as int) / f,
                    old(self).min_zoom as int,
                    old(self).max_zoom as int,
                );
                let v = crate::viewport::clamp_viewport_spec(
                    (Viewport { zoom: z as i64, ..old(self).viewport }),
                    old(self).translate_extent,
                    old(self).width as int,
                    old(self).height as int,
                );
                &&& final(self).viewport == v
                &&& *final(self) == (FlowState {
                    viewport: v,
                    connection: final(self).connection,
                    ..*old(self)
                })
            }),
            config_wf(*final(self)),
            graph_wf(*final(self)),
            connection_coords_ok(final(self).connection),
    {
        let f: i64 = match factor {
            Some(f) => f,
            None => 1200,
        };
        proof {
            assert(0 <= self.viewport.zoom as int * MILLE <= 0x10_0000 * 1_000_000)
                by (nonlinear_arith)
                requires
                    1 <= self.viewport.zoom <= 0x10_0000,
                    MILLE == 1000,
            {
            }
        }
        let scaled = crate::num::div_floor(self.viewport.zoom * MILLE, f);
        let z = crate::num::clamp_i64(scaled, self.min_zoom, self.max_zoom);
        let v = self.clamp_viewport(Viewport { x: self.viewport.x, y: self.viewport.y, zoom: z });
        self.commit_viewport(v);
    }

    /// Set the zoom, clamped into the zoom range and to the translate
    /// extent.
    pub fn set_zoom(&mut self, zoom: i64)
        requires
            config_wf(*old(self)),
            graph_wf(*old(self)),
            connection_coords_ok(old(self).connection),
        ensures
            ({
                let z = crate::num::clamp_spec(
                    zoom as int,
                    old(self).min_zoom as int,
                    old(self).max_zoom as int,
                );
                let v = crate::viewport::clamp_viewport_spec(
                    (Viewport { zoom: z as i64, ..old(self).viewport }),
                    old(self).translate_extent,
                    old(self).width as int,
                    old(self).height as int,
                );
                &&& final(self).viewport == v
                &&& *final(self) == (FlowState {
                    viewport: v,
                    connection: final(self).connection,
                    ..*old(self)
                })
            }),
            config_wf(*final(self)),
            graph_wf(*final(self)),
            connection_coords_ok(final(self).connection),
    {
        let z = crate::num::clamp_i64(zoom, self.min_zoom, self.max_zoom);
        let v = self.clamp_viewport(Viewport { x: self.viewport.x, y: self.viewport.y, zoom: z });
        self.commit_viewport(v);
    }
}


/// A snapped connection candidate: the handle the cursor is near.
#[derive(PartialEq, Debug)]
pub struct ClosestHandle {
    pub node_index: usize,
    pub handle_id: Option<String>,
    pub handle_type: crate::handle::HandleType,
    pub flow_pos: XYPosition,
    pub screen_pos: XYPosition,
    pub dist_sq: u128,
}

/// The handle side of a measured bounds view.
pub open spec fn handle_side(
    b: (Seq<crate::handle::HandleBound>, Seq<crate::handle::HandleBound>),
    ht: crate::handle::HandleType,
) -> Seq<crate::handle::HandleBound> {
    if ht == crate::handle::HandleType::Source {
        b.0
    } else {
        b.1
    }
}

/// A handle that a connection drag may snap to: on a visible node with
/// measured bounds, connectable, of the opposite type in `Strict` mode, and
/// not the very handle the drag started from.
pub open spec fn handle_candidate_eligible<N, E>(
    s: FlowState<N, E>,
    i: int,
    ht: crate::handle::HandleType,
    k: int,
) -> bool {
    &&& 0 <= i < s.internals@.len()
    &&& s.internals@.len() == s.nodes@.len()
    &&& !s.nodes@[i].hidden
    &&& bounds_view(s.internals@[i].handle_bounds) is Some
    &&& 0 <= k < handle_side(bounds_view(s.internals@[i].handle_bounds)->0, ht).len()
    &&& handle_side(bounds_view(s.internals@[i].handle_bounds)->0, ht)[k].is_connectable
    &&& s.connection.from_type is Some
    &&& (s.connection_mode == ConnectionMode::Strict ==> ht != s.connection.from_type->0)
    &&& !(s.connection.from_node is Some && s.internals@[i].id@ == s.connection.from_node->0@ && ht
        == s.connection.from_type->0 && crate::graph::opt_id_eq(
        handle_side(bounds_view(s.internals@[i].handle_bounds)->0, ht)[k].id,
        s.connection.from_handle,
    ))
}

/// The squared screen distance between the cursor and a handle's center.
pub open spec fn handle_screen_dist_sq<N, E>(
    s: FlowState<N, E>,
    cursor: XYPosition,
    i: int,
    ht: crate::handle::HandleType,
    k: int,
) -> int {
    let c = handle_center_spec(
        s.internals@[i],
        handle_side(bounds_view(s.internals@[i].handle_bounds)->0, ht)[k],
    );
    let sx = crate::viewport::flow_to_screen_coord(c.0, s.viewport.zoom as int, s.viewport.x as int);
    let sy = crate::viewport::flow_to_screen_coord(c.1, s.viewport.zoom as int, s.viewport.y as int);
    (sx - cursor.x) * (sx - cursor.x) + (sy - cursor.y) * (sy - cursor.y)
}

/// Law: an eligible candidate never carries the origin's own handle type in
/// `Strict` mode — a `Source` can only validate against a `Target` and the
/// other way round; in `Loose` mode the handle type never disqualifies a
/// candidate.
pub proof fn lemma_candidate_type_rules<N, E>(
    s: FlowState<N, E>,
    i: int,
    ht: crate::handle::HandleType,
    k: int,
)
    ensures
        handle_candidate_eligible(s, i, ht, k) && s.connection_mode == ConnectionMode::Strict
            ==> ht != s.connection.from_type->0,
        handle_candidate_eligible(s, i, ht, k) && s.connection_mode == ConnectionMode::Strict
            && s.connection.from_type->0 == crate::handle::HandleType::Source ==> ht
            == crate::handle::HandleType::Target,
        handle_candidate_eligible(s, i, ht, k) && s.connection_mode == ConnectionMode::Strict
            && s.connection.from_type->0 == crate::handle::HandleType::Target ==> ht
            == crate::handle::HandleType::Source,
{
}

impl<N, E> FlowState<N, E> {
    /// Search every measured handle for one within the connection radius of
    /// the cursor; a found candidate is eligible and carries its handle's
    /// exact flow and screen centers, and a miss means no eligible handle
    /// lies within the radius.
    #[verifier::rlimit(100)]
    pub fn find_closest_handle(&self, cursor: XYPosition) -> (r: Option<ClosestHandle>)
        requires
            config_wf(*self),
            graph_wf(*self),
            crate::num::screen_ok(cursor.x as int),
            crate::num::screen_ok(cursor.y as int),
            self.connection.from_type is Some,
        ensures
            self.connection_radius <= 0 ==> r is None,
            match r {
                Some(c) => (exists|i: int, ht: crate::handle::HandleType, k: int|
                    handle_candidate_eligible(*self, i, ht, k) && #[trigger] candidate_matches(
                        *self,
                        cursor,
                        c,
                        i,
                        ht,
                        k,
                    )) && forall|i: int, ht: crate::handle::HandleType, k: int|
                    #[trigger] handle_candidate_eligible(*self, i, ht, k)
                        ==> handle_screen_dist_sq(*self, cursor, i, ht, k) >= c.dist_sq,
                None => self.connection_radius <= 0 || forall|
                    i: int,
                    ht: crate::handle::HandleType,
                    k: int,
                |
                    #[trigger] handle_candidate_eligible(*self, i, ht, k)
                        ==> handle_screen_dist_sq(*self, cursor, i, ht, k)
                        > self.connection_radius * self.connection_radius,
            },
    {
        if self.connection_radius <= 0 {
            return None;
        }
        proof {
            assert(
                0 <= self.connection_radius as int * self.connection_radius
                    <= 0x8000_0000_0000_0000 * 0x8000_0000_0000_0000
            ) by (nonlinear_arith)
                requires
                    0 <= self.connection_radius <= 0x8000_0000_0000_0000,
            {
            }
        }
        let radius_sq: u128 = (self.connection_radius as u128) * (self.connection_radius as u128);
        let mut best: Option<ClosestHandle> = None;
        let mut i: usize = 0;
        while i < self.internals.len()
            invariant
                config_wf(*self),
                graph_wf(*self),
                crate::num::screen_ok(cursor.x as int),
                crate::num::screen_ok(cursor.y as int),
                self.connection.from_type is Some,
                self.connection_radius >= 1,
                radius_sq == self.connection_radius * self.connection_radius,
                i <= self.internals@.len(),
                match best {
                    Some(c) => (exists|bi: int, bht: crate::handle::HandleType, bk: int|
                        handle_candidate_eligible(*self, bi, bht, bk)
                            && #[trigger] candidate_matches(*self, cursor, c, bi, bht, bk))
                        && c.dist_sq <= radius_sq && forall|
                        bi: int,
                        bht: crate::handle::HandleType,
                        bk: int,
                    |
                        bi < i && #[trigger] handle_candidate_eligible(*self, bi, bht, bk)
                            ==> handle_screen_dist_sq(*self, cursor, bi, bht, bk) >= c.dist_sq,
                    None => forall|bi: int, bht: crate::handle::HandleType, bk: int|
                        bi < i && #[trigger] handle_candidate_eligible(*self, bi, bht, bk)
                            ==> handle_screen_dist_sq(*self, cursor, bi, bht, bk)
                            > self.connection_radius * self.connection_radius,
                },
            decreases self.internals@.len() - i,
        {
            let ghost prev_best = best;
            let mut scanned = false;
            if !self.nodes[i].hidden {
                if self.internals[i].handle_bounds.is_some() {
                    let new_best = self.scan_node_handles(cursor, i, radius_sq, best);
                    best = new_best;
                    scanned = true;
                }
            }
            proof {
                if !scanned {
                    assert forall|bht: crate::handle::HandleType, bk: int|
                        !(#[trigger] handle_candidate_eligible(*self, i as int, bht, bk)) by {
                        if self.nodes@[i as int].hidden {
                        }
                    }
                }
                match &best {
                    Some(c) => {
                        assert forall|bi: int, bht: crate::handle::HandleType, bk: int|
                            bi < i + 1 && #[trigger] handle_candidate_eligible(*self, bi, bht, bk)
                                implies handle_screen_dist_sq(*self, cursor, bi, bht, bk)
                            >= c.dist_sq by {
                            if bi == i as int {
                            } else {
                                if prev_best is Some {
                                } else {
                                }
                            }
                        }
                    },
                    None => {
                        assert forall|bi: int, bht: crate::handle::HandleType, bk: int|
                            bi < i + 1 && #[trigger] handle_candidate_eligible(*self, bi, bht, bk)
                                implies handle_screen_dist_sq(*self, cursor, bi, bht, bk)
                            > self.connection_radius * self.connection_radius by {
                            if bi == i as int {
                            }
                        }
                    },
                }
            }
            i = i + 1;
        }
        best
    }
}

/// The candidate data names a real handle: the indices address it, its type
/// and id are the handle's, its positions are the handle's exact flow and
/// screen centers, and its distance is within the radius.
pub open spec fn candidate_matches<N, E>(
    s: FlowState<N, E>,
    cursor: XYPosition,
    c: ClosestHandle,
    i: int,
    ht: crate::handle::HandleType,
    k: int,
) -> bool {
    let h = handle_side(bounds_view(s.internals@[i].handle_bounds)->0, ht)[k];
    let center = handle_center_spec(s.internals@[i], h);
    &&& c.node_index == i
    &&& c.handle_type == ht
    &&& crate::graph::opt_id_eq(c.handle_id, h.id)
    &&& c.flow_pos.x == center.0 && c.flow_pos.y == center.1
    &&& c.screen_pos.x == crate::viewport::flow_to_screen_coord(
        center.0,
        s.viewport.zoom as int,
        s.viewport.x as int,
    ) && c.screen_pos.y == crate::viewport::flow_to_screen_coord(
        center.1,
        s.viewport.zoom as int,
        s.viewport.y as int,
    )
    &&& c.dist_sq == handle_screen_dist_sq(s, cursor, i, ht, k)
    &&& c.dist_sq <= s.connection_radius * s.connection_radius
    &&& crate::num::screen_ok(c.screen_pos.x as int)
    &&& crate::num::screen_ok(c.screen_pos.y as int)
    &&& c.node_index < s.internals@.len()
}


/// The connection state of a drag that free-floats at the cursor: no
/// target, validity off, the cursor tracked in both coordinate spaces.
pub open spec fn free_float_connection(
    c0: ConnectionState,
    screen: XYPosition,
    flow: XYPosition,
) -> ConnectionState {
    ConnectionState {
        to_node: None,
        to_handle: None,
        to_type: None,
        is_valid: false,
        to_position_screen: Some(screen),
        to_position: Some(flow),
        ..c0
    }
}

/// The connection state of a drag snapped to the addressed handle: the
/// target names that handle, the tracked positions are the handle's exact
/// flow and screen centers, validity is the mode's base compatibility
/// (and that both ends exist), and every other field is untouched.
pub open spec fn connection_snapped_to<N, E>(
    s: FlowState<N, E>,
    c: ConnectionState,
    i: int,
    ht: crate::handle::HandleType,
    k: int,
) -> bool {
    let h = handle_side(bounds_view(s.internals@[i].handle_bounds)->0, ht)[k];
    let center = handle_center_spec(s.internals@[i], h);
    let screen_x = crate::viewport::flow_to_screen_coord(
        center.0,
        s.viewport.zoom as int,
        s.viewport.x as int,
    );
    let screen_y = crate::viewport::flow_to_screen_coord(
        center.1,
        s.viewport.zoom as int,
        s.viewport.y as int,
    );
    &&& c == (ConnectionState {
        to_node: c.to_node,
        to_handle: c.to_handle,
        to_type: c.to_type,
        to_position: c.to_position,
        to_position_screen: c.to_position_screen,
        is_valid: c.is_valid,
        ..s.connection
    })
    &&& c.to_node == Some(s.internals@[i].id)
    &&& crate::graph::opt_id_eq(c.to_handle, h.id)
    &&& c.to_type == Some(ht)
    &&& c.to_position == Some(XYPosition { x: center.0 as i64, y: center.1 as i64 })
    &&& c.to_position_screen == Some(XYPosition { x: screen_x as i64, y: screen_y as i64 })
    &&& c.is_valid == (crate::connection::connection_base_valid(
        s.connection_mode,
        s.connection.from_type->0,
        ht,
    ) && crate::connection::to_connection_spec(c) is Some)
}

/// What tracking a live connection drag establishes, over the state `s` the
/// cursor moved in: either some nearest eligible handle lies within the
/// connection radius and the connection snapped to it — returning its
/// tentative connection exactly when the mode's base compatibility holds —
/// or no eligible handle is near and the connection free-floats at the
/// cursor with nothing returned.
pub open spec fn tracked_connection_post<N, E>(
    s: FlowState<N, E>,
    c: ConnectionState,
    cursor: XYPosition,
    r: Option<crate::connection::Connection>,
) -> bool {
    let rsq = s.connection_radius * s.connection_radius;
    ||| (exists|i: int, ht: crate::handle::HandleType, k: int|
        #[trigger] handle_candidate_eligible(s, i, ht, k) && handle_screen_dist_sq(
            s,
            cursor,
            i,
            ht,
            k,
        ) <= rsq && (forall|i2: int, ht2: crate::handle::HandleType, k2: int|
            #[trigger] handle_candidate_eligible(s, i2, ht2, k2) ==> handle_screen_dist_sq(
                s,
                cursor,
                i2,
                ht2,
                k2,
            ) >= handle_screen_dist_sq(s, cursor, i, ht, k)) && connection_snapped_to(
            s,
            c,
            i,
            ht,
            k,
        ) && r == (if crate::connection::connection_base_valid(
            s.connection_mode,
            s.connection.from_type->0,
            ht,
        ) {
            crate::connection::to_connection_spec(c)
        } else {
            None::<crate::connection::Connection>
        }))
    ||| ((s.connection_radius <= 0 || (forall|i: int, ht: crate::handle::HandleType, k: int|
        #[trigger] handle_candidate_eligible(s, i, ht, k) ==> handle_screen_dist_sq(
            s,
            cursor,
            i,
            ht,
            k,
        ) > rsq)) && c == free_float_connection(
        s.connection,
        cursor,
        XYPosition {
            x: crate::viewport::screen_to_flow_coord(
                cursor.x as int,
                s.viewport.zoom as int,
                s.viewport.x as int,
            ) as i64,
            y: crate::viewport::screen_to_flow_coord(
                cursor.y as int,
                s.viewport.zoom as int,
                s.viewport.y as int,
            ) as i64,
        },
    ) && r is None)
}

impl<N, E> FlowState<N, E> {
    /// Scan both handle sides of one node for a snap candidate nearer than
    /// the one carried in.
    #[verifier::rlimit(100)]
    fn scan_node_handles(
        &self,
        cursor: XYPosition,
        i: usize,
        radius_sq: u128,
        best: Option<ClosestHandle>,
    ) -> (r: Option<ClosestHandle>)
        requires
            config_wf(*self),
            graph_wf(*self),
            crate::num::screen_ok(cursor.x as int),
            crate::num::screen_ok(cursor.y as int),
            self.connection.from_type is Some,
            self.connection_radius >= 1,
            radius_sq == self.connection_radius * self.connection_radius,
            i < self.internals@.len(),
            !self.nodes@[i as int].hidden,
            bounds_view(self.internals@[i as int].handle_bounds) is Some,
            match best {
                Some(c) => (exists|bi: int, bht: crate::handle::HandleType, bk: int|
                    handle_candidate_eligible(*self, bi, bht, bk) && #[trigger] candidate_matches(
                        *self,
                        cursor,
                        c,
                        bi,
                        bht,
                        bk,
                    )) && c.dist_sq <= radius_sq,
                None => true,
            },
        ensures
            match r {
                Some(c) => (exists|bi: int, bht: crate::handle::HandleType, bk: int|
                    handle_candidate_eligible(*self, bi, bht, bk) && #[trigger] candidate_matches(
                        *self,
                        cursor,
                        c,
                        bi,
                        bht,
                        bk,
                    )) && c.dist_sq <= radius_sq && (best is Some ==> c.dist_sq
                    <= best->0.dist_sq) && forall|ht: crate::handle::HandleType, k: int|
                    #[trigger] handle_candidate_eligible(*self, i as int, ht, k)
                        ==> handle_screen_dist_sq(*self, cursor, i as int, ht, k) >= c.dist_sq,
                None => best is None && forall|ht: crate::handle::HandleType, k: int|
                    #[trigger] handle_candidate_eligible(*self, i as int, ht, k)
                        ==> handle_screen_dist_sq(*self, cursor, i as int, ht, k)
                        > self.connection_radius * self.connection_radius,
            },
    {
        let hb = match &self.internals[i].handle_bounds {
            Some(hb) => hb,
            None => {
                proof {
                    assert(false);
                }
                return None;
            },
        };
        let ghost best0 = best;
        let mut best = best;
        let from_type = match self.connection.from_type {
            Some(t) => t,
            None => {
                proof {
                    assert(false);
                }
                return None;
            },
        };
        let mut side: usize = 0;
        while side < 2
            invariant
                config_wf(*self),
                graph_wf(*self),
                crate::num::screen_ok(cursor.x as int),
                crate::num::screen_ok(cursor.y as int),
                self.connection.from_type == Some(from_type),
                self.connection_radius >= 1,
                radius_sq == self.connection_radius * self.connection_radius,
                i < self.internals@.len(),
                !self.nodes@[i as int].hidden,
                bounds_view(self.internals@[i as int].handle_bounds) is Some,
                *hb == self.internals@[i as int].handle_bounds->0,
                side <= 2,
                best is None ==> best0 is None,
                match best {
                    Some(c) => (exists|bi: int, bht: crate::handle::HandleType, bk: int|
                        handle_candidate_eligible(*self, bi, bht, bk)
                            && #[trigger] candidate_matches(*self, cursor, c, bi, bht, bk))
                        && c.dist_sq <= radius_sq && (best0 is Some ==> c.dist_sq
                        <= best0->0.dist_sq) && forall|bht: crate::handle::HandleType, bk: int|
                        ((bht == crate::handle::HandleType::Source && side >= 1) || (bht
                            == crate::handle::HandleType::Target && side >= 2))
                            && #[trigger] handle_candidate_eligible(*self, i as int, bht, bk)
                            ==> handle_screen_dist_sq(*self, cursor, i as int, bht, bk)
                            >= c.dist_sq,
                    None => forall|bht: crate::handle::HandleType, bk: int|
                        ((bht == crate::handle::HandleType::Source && side >= 1) || (bht
                            == crate::handle::HandleType::Target && side >= 2))
                            && #[trigger] handle_candidate_eligible(*self, i as int, bht, bk)
                            ==> handle_screen_dist_sq(*self, cursor, i as int, bht, bk)
                            > self.connection_radius * self.connection_radius,
                },
            decreases 2 - side,
        {
            let ht = if side == 0 {
                crate::handle::HandleType::Source
            } else {
                crate::handle::HandleType::Target
            };
            let skip_side = match (self.connection_mode, ht, from_type) {
                (ConnectionMode::Strict, crate::handle::HandleType::Source,
                    crate::handle::HandleType::Source) => true,
                (ConnectionMode::Strict, crate::handle::HandleType::Target,
                    crate::handle::HandleType::Target) => true,
                _ => false,
            };
            if !skip_side {
                let handles: &Vec<crate::handle::HandleBound> = if side == 0 {
                    &hb.source
                } else {
                    &hb.target
                };
                proof {
                    assert(handles@ == handle_side(
                        bounds_view(self.internals@[i as int].handle_bounds)->0,
                        ht,
                    ));
                    assert(handle_list_ok(handles@));
                }
                let mut k: usize = 0;
                while k < handles.len()
                    invariant
                        config_wf(*self),
                        graph_wf(*self),
                        crate::num::screen_ok(cursor.x as int),
                        crate::num::screen_ok(cursor.y as int),
                        self.connection.from_type == Some(from_type),
                        self.connection_radius >= 1,
                        radius_sq == self.connection_radius * self.connection_radius,
                        i < self.internals@.len(),
                        !self.nodes@[i as int].hidden,
                        bounds_view(self.internals@[i as int].handle_bounds) is Some,
                        handles@ == handle_side(
                            bounds_view(self.internals@[i as int].handle_bounds)->0,
                            ht,
                        ),
                        handle_list_ok(handles@),
                        self.connection_mode == ConnectionMode::Strict ==> ht != from_type,
                        k <= handles@.len(),
                        best is None ==> best0 is None,
                        match best {
                            Some(c) => (exists|bi: int, bht: crate::handle::HandleType, bk: int|
                                handle_candidate_eligible(*self, bi, bht, bk)
                                    && #[trigger] candidate_matches(*self, cursor, c, bi, bht, bk))
                                && c.dist_sq <= radius_sq && (best0 is Some ==> c.dist_sq
                                <= best0->0.dist_sq) && forall|
                                bht: crate::handle::HandleType,
                                bk: int,
                            |
                                (((bht == crate::handle::HandleType::Source && side >= 1) || (bht
                                    == crate::handle::HandleType::Target && side >= 2)) || (bht
                                    == ht && bk < k)) && #[trigger] handle_candidate_eligible(
                                    *self,
                                    i as int,
                                    bht,
                                    bk,
                                ) ==> handle_screen_dist_sq(*self, cursor, i as int, bht, bk)
                                    >= c.dist_sq,
                            None => forall|bht: crate::handle::HandleType, bk: int|
                                (((bht == crate::handle::HandleType::Source && side >= 1) || (bht
                                    == crate::handle::HandleType::Target && side >= 2)) || (bht
                                    == ht && bk < k)) && #[trigger] handle_candidate_eligible(
                                    *self,
                                    i as int,
                                    bht,
                                    bk,
                                ) ==> handle_screen_dist_sq(*self, cursor, i as int, bht, bk)
                                    > self.connection_radius * self.connection_radius,
                        },
                    decreases handles@.len() - k,
                {
                    let mut excluded = !handles[k].is_connectable;
                    if !excluded {
                        if let Some(from_node) = &self.connection.from_node {
                            let same_node = self.internals[i].id == *from_node;
                            let same_type = match (ht, from_type) {
                                (crate::handle::HandleType::Source,
                                    crate::handle::HandleType::Source) => true,
                                (crate::handle::HandleType::Target,
                                    crate::handle::HandleType::Target) => true,
                                _ => false,
                            };
                            if same_node && same_type && crate::graph::opt_string_eq(
                                &handles[k].id,
                                &self.connection.from_handle,
                            ) {
                                excluded = true;
                            }
                        }
                    }
                    if !excluded {
                        proof {
                            assert(handle_candidate_eligible(*self, i as int, ht, k as int));
                            assert(coord_ok(self.internals@[i as int].position_absolute.x as int));
                            assert(coord_ok(handles@[k as int].x as int));
                        }
                        let h = &handles[k];
                        let cx = self.internals[i].position_absolute.x + h.x
                            + crate::num::div_floor(h.width, 2);
                        let cy = self.internals[i].position_absolute.y + h.y
                            + crate::num::div_floor(h.height, 2);
                        let flow_pos = XYPosition { x: cx, y: cy };
                        let screen_pos = crate::viewport::flow_to_screen_position(
                            flow_pos,
                            &self.viewport,
                        );
                        let d = screen_pos.dist_sq(&cursor);
                        if d <= radius_sq {
                            let take = match &best {
                                Some(b) => d < b.dist_sq,
                                None => true,
                            };
                            if take {
                                let c = ClosestHandle {
                                    node_index: i,
                                    handle_id: crate::handle::clone_opt_string(&h.id),
                                    handle_type: ht,
                                    flow_pos,
                                    screen_pos,
                                    dist_sq: d,
                                };
                                proof {
                                    assert(candidate_matches(
                                        *self,
                                        cursor,
                                        c,
                                        i as int,
                                        ht,
                                        k as int,
                                    ));
                                }
                                best = Some(c);
                            }
                        } else {
                            proof {
                                assert(handle_screen_dist_sq(*self, cursor, i as int, ht, k as int)
                                    > self.connection_radius * self.connection_radius);
                            }
                        }
                    } else {
                        proof {
                            assert(!handle_candidate_eligible(*self, i as int, ht, k as int));
                        }
                    }
                    k = k + 1;
                }
            }
            side = side + 1;
        }
        best
    }
}


/// The edge list after moving one end of an edge to a committed connection:
/// the reconnected end's node and handle are replaced, everything else kept.
pub open spec fn reconnected_edges_spec<E>(
    edges: Seq<Edge<E>>,
    edge_id: Seq<char>,
    end: crate::handle::HandleType,
    conn: crate::connection::Connection,
) -> Seq<Edge<E>> {
    let j = crate::change::find_edge_index(edges, edge_id);
    if j < 0 {
        edges
    } else {
        let e = edges[j];
        let updated = if end == crate::handle::HandleType::Source {
            Edge { source: conn.source, source_handle: conn.source_handle, ..e }
        } else {
            Edge { target: conn.target, target_handle: conn.target_handle, ..e }
        };
        edges.update(j, updated)
    }
}

impl<N, E> FlowState<N, E> {
    /// Seed a connection drag from a press on a handle.
    pub fn start_connection(
        &mut self,
        from_node: String,
        from_handle: Option<String>,
        from_type: crate::handle::HandleType,
        from_position: crate::geometry::Position,
        start_screen: XYPosition,
    )
        requires
            crate::num::screen_ok(start_screen.x as int),
            crate::num::screen_ok(start_screen.y as int),
        ensures
            final(self).connection == (ConnectionState {
                start_screen: Some(start_screen),
                ..crate::connection::started_connection_state(
                    from_node,
                    from_handle,
                    from_type,
                    from_position,
                )
            }),
            *final(self) == (FlowState { connection: final(self).connection, ..*old(self) }),
            connection_coords_ok(final(self).connection),
    {
        let mut c = ConnectionState::start(from_node, from_handle, from_type, from_position);
        c.start_screen = Some(start_screen);
        self.connection = c;
    }

    /// Seed a reconnect drag from an existing edge's end.
    pub fn start_reconnect(
        &mut self,
        edge_id: String,
        reconnect_end: crate::handle::HandleType,
        from_node: String,
        from_handle: Option<String>,
        from_type: crate::handle::HandleType,
        from_position: crate::geometry::Position,
        start_screen: XYPosition,
    )
        requires
            crate::num::screen_ok(start_screen.x as int),
            crate::num::screen_ok(start_screen.y as int),
        ensures
            final(self).connection == (ConnectionState {
                reconnect_edge_id: Some(edge_id),
                reconnect_end: Some(reconnect_end),
                start_screen: Some(start_screen),
                ..crate::connection::started_connection_state(
                    from_node,
                    from_handle,
                    from_type,
                    from_position,
                )
            }),
            *final(self) == (FlowState { connection: final(self).connection, ..*old(self) }),
            connection_coords_ok(final(self).connection),
    {
        let mut c = ConnectionState::start_reconnect(
            edge_id,
            reconnect_end,
            from_node,
            from_handle,
            from_type,
            from_position,
        );
        c.start_screen = Some(start_screen);
        self.connection = c;
    }

    /// Track the pointer during a connection drag: below the drag threshold
    /// nothing changes; beyond it the drag is live, a near eligible handle
    /// becomes the snapped target with the mode's base validity, and with no
    /// handle near the cursor free-floats with no target.  The returned
    /// connection, when one is returned, is the tentative connection of the
    /// snapped target, for an external validity check.  A valid state always
    /// respects the mode: in `Strict` mode the target handle type opposes
    /// the origin's.
    #[verifier::rlimit(100)]
    pub fn connection_pointer_move(&mut self, screen_pos: XYPosition) -> (r: Option<
        crate::connection::Connection,
    >)
        requires
            config_wf(*old(self)),
            graph_wf(*old(self)),
            connection_coords_ok(old(self).connection),
            crate::num::screen_ok(screen_pos.x as int),
            crate::num::screen_ok(screen_pos.y as int),
            old(self).connection.in_progress,
            old(self).connection.from_type is Some,
        ensures
            connection_coords_ok(final(self).connection),
            *final(self) == (FlowState { connection: final(self).connection, ..*old(self) }),
            ({
                let c0 = old(self).connection;
                let below = !c0.dragging && c0.start_screen is Some && crate::geometry::dist_sq_spec(
                    c0.start_screen->0,
                    screen_pos,
                ) < old(self).connection_drag_threshold * old(self).connection_drag_threshold;
                let live = FlowState {
                    connection: (ConnectionState { dragging: true, ..c0 }),
                    ..*old(self)
                };
                &&& below ==> *final(self) == *old(self) && r is None
                &&& !below ==> final(self).connection.dragging && tracked_connection_post(
                    live,
                    final(self).connection,
                    screen_pos,
                    r,
                )
            }),
    {
        let threshold = self.connection_drag_threshold;
        if !self.connection.dragging {
            if let Some(start) = self.connection.start_screen {
                proof {
                    assert(
                        0 <= threshold as int * threshold <= 0x8000_0000_0000_0000
                            * 0x8000_0000_0000_0000
                    ) by (nonlinear_arith)
                        requires
                            0 <= threshold <= 0x8000_0000_0000_0000,
                    {
                    }
                }
                let t_sq: u128 = (threshold as u128) * (threshold as u128);
                if start.dist_sq(&screen_pos) < t_sq {
                    return None;
                }
            }
            self.connection.dragging = true;
        }
        proof {
            assert(*self == (FlowState {
                connection: (ConnectionState { dragging: true, ..old(self).connection }),
                ..*old(self)
            }));
        }
        self.track_connection_cursor(screen_pos)
    }

    /// Track a live connection drag: snap to a near eligible handle or
    /// free-float at the cursor.
    #[verifier::rlimit(100)]
    fn track_connection_cursor(&mut self, screen_pos: XYPosition) -> (r: Option<
        crate::connection::Connection,
    >)
        requires
            config_wf(*old(self)),
            graph_wf(*old(self)),
            connection_coords_ok(old(self).connection),
            crate::num::screen_ok(screen_pos.x as int),
            crate::num::screen_ok(screen_pos.y as int),
            old(self).connection.from_type is Some,
        ensures
            connection_coords_ok(final(self).connection),
            *final(self) == (FlowState { connection: final(self).connection, ..*old(self) }),
            tracked_connection_post(*old(self), final(self).connection, screen_pos, r),
    {
        let flow_pos = crate::viewport::screen_to_flow_position(screen_pos, &self.viewport);
        let candidate = self.snap_candidate(screen_pos);
        match candidate {
            Some(target) => {
                let ghost t = target;
                let out = self.apply_snap_target(target);
                proof {
                    let (i, ht, k): (int, crate::handle::HandleType, int) = choose|
                        i: int,
                        ht: crate::handle::HandleType,
                        k: int,
                    |
                        handle_candidate_eligible(*old(self), i, ht, k)
                            && #[trigger] candidate_matches(*old(self), screen_pos, t, i, ht, k);
                    assert(connection_snapped_to(*old(self), self.connection, i, ht, k));
                    assert(handle_screen_dist_sq(*old(self), screen_pos, i, ht, k) <= old(
                        self,
                    ).connection_radius * old(self).connection_radius);
                    assert(forall|i2: int, ht2: crate::handle::HandleType, k2: int|
                        #[trigger] handle_candidate_eligible(*old(self), i2, ht2, k2)
                            ==> handle_screen_dist_sq(*old(self), screen_pos, i2, ht2, k2)
                            >= handle_screen_dist_sq(*old(self), screen_pos, i, ht, k));
                    assert(tracked_connection_post(
                        *old(self),
                        self.connection,
                        screen_pos,
                        out,
                    ));
                }
                out
            },
            None => {
                self.apply_free_float(screen_pos, flow_pos);
                proof {
                    assert(self.connection == free_float_connection(
                        old(self).connection,
                        screen_pos,
                        flow_pos,
                    ));
                    assert(tracked_connection_post(
                        *old(self),
                        self.connection,
                        screen_pos,
                        None::<crate::connection::Connection>,
                    ));
                }
                None
            },
        }
    }

    /// Record a snapped target: the candidate's handle becomes the tracked
    /// target with the mode's base validity, and the tracked positions snap
    /// to the handle's exact centers.
    #[verifier::rlimit(100)]
    fn apply_snap_target(&mut self, target: ClosestHandle) -> (r: Option<
        crate::connection::Connection,
    >)
        requires
            config_wf(*old(self)),
            graph_wf(*old(self)),
            connection_coords_ok(old(self).connection),
            old(self).connection.from_type is Some,
            crate::num::screen_ok(target.screen_pos.x as int),
            crate::num::screen_ok(target.screen_pos.y as int),
            target.node_index < old(self).internals@.len(),
        ensures
            config_wf(*final(self)),
            graph_wf(*final(self)),
            connection_coords_ok(final(self).connection),
            *final(self) == (FlowState { connection: final(self).connection, ..*old(self) }),
            ({
                let c0 = old(self).connection;
                let base_valid = crate::connection::connection_base_valid(
                    old(self).connection_mode,
                    c0.from_type->0,
                    target.handle_type,
                );
                &&& final(self).connection == (ConnectionState {
                    to_node: Some(old(self).internals@[target.node_index as int].id),
                    to_handle: target.handle_id,
                    to_type: Some(target.handle_type),
                    to_position: Some(target.flow_pos),
                    to_position_screen: Some(target.screen_pos),
                    is_valid: final(self).connection.is_valid,
                    ..c0
                })
                &&& final(self).connection.is_valid == (base_valid
                    && crate::connection::to_connection_spec(final(self).connection) is Some)
                &&& r == (if base_valid {
                    crate::connection::to_connection_spec(final(self).connection)
                } else {
                    None::<crate::connection::Connection>
                })
            }),
    {
        let from_type = match self.connection.from_type {
            Some(t) => t,
            None => {
                proof {
                    assert(false);
                }
                return None;
            },
        };
        let base_valid = match self.connection_mode {
            ConnectionMode::Loose => true,
            ConnectionMode::Strict => match (from_type, target.handle_type) {
                (crate::handle::HandleType::Source, crate::handle::HandleType::Source) => false,
                (crate::handle::HandleType::Target, crate::handle::HandleType::Target) => false,
                _ => true,
            },
        };
        proof {
            assert(base_valid == crate::connection::connection_base_valid(
                old(self).connection_mode,
                old(self).connection.from_type->0,
                target.handle_type,
            ));
        }
        let node_id = self.internals[target.node_index].id.clone();
        self.connection.set_target(node_id, target.handle_id, target.handle_type, base_valid);
        let tentative = self.connection.to_connection();
        let is_valid = base_valid && tentative.is_some();
        self.connection.is_valid = is_valid;
        self.connection.update_screen_position(target.screen_pos, target.flow_pos);
        proof {
            assert(crate::connection::to_connection_spec(self.connection) == tentative);
            assert(connection_coords_ok(self.connection));
        }
        if base_valid {
            let out = self.connection.to_connection();
            out
        } else {
            None
        }
    }

    /// Track a free-floating cursor: no target, the cursor position in both
    /// spaces.
    fn apply_free_float(&mut self, screen_pos: XYPosition, flow_pos: XYPosition)
        requires
            connection_coords_ok(old(self).connection),
            crate::num::screen_ok(screen_pos.x as int),
            crate::num::screen_ok(screen_pos.y as int),
        ensures
            final(self).connection == (ConnectionState {
                to_node: None,
                to_handle: None,
                to_type: None,
                is_valid: false,
                to_position_screen: Some(screen_pos),
                to_position: Some(flow_pos),
                ..old(self).connection
            }),
            *final(self) == (FlowState { connection: final(self).connection, ..*old(self) }),
            connection_coords_ok(final(self).connection),
    {
        self.connection.clear_target();
        self.connection.update_screen_position(screen_pos, flow_pos);
    }

    /// The snap candidate for a cursor position, with the bounds the caller
    /// reads off it.
    fn snap_candidate(&self, cursor: XYPosition) -> (r: Option<ClosestHandle>)
        requires
            config_wf(*self),
            graph_wf(*self),
            crate::num::screen_ok(cursor.x as int),
            crate::num::screen_ok(cursor.y as int),
            self.connection.from_type is Some,
        ensures
            r is Some ==> crate::num::screen_ok(r->0.screen_pos.x as int) && crate::num::screen_ok(
                r->0.screen_pos.y as int,
            ) && r->0.node_index < self.internals@.len(),
            match r {
                Some(c) => (exists|i: int, ht: crate::handle::HandleType, k: int|
                    handle_candidate_eligible(*self, i, ht, k) && #[trigger] candidate_matches(
                        *self,
                        cursor,
                        c,
                        i,
                        ht,
                        k,
                    )) && forall|i: int, ht: crate::handle::HandleType, k: int|
                    #[trigger] handle_candidate_eligible(*self, i, ht, k)
                        ==> handle_screen_dist_sq(*self, cursor, i, ht, k) >= c.dist_sq,
                None => self.connection_radius <= 0 || forall|
                    i: int,
                    ht: crate::handle::HandleType,
                    k: int,
                |
                    #[trigger] handle_candidate_eligible(*self, i, ht, k)
                        ==> handle_screen_dist_sq(*self, cursor, i, ht, k)
                        > self.connection_radius * self.connection_radius,
            },
    {
        let r = self.find_closest_handle(cursor);
        proof {
            match &r {
                Some(c) => {
                    let (bi, bht, bk): (int, crate::handle::HandleType, int) = choose|
                        bi: int,
                        bht: crate::handle::HandleType,
                        bk: int,
                    |
                        handle_candidate_eligible(*self, bi, bht, bk) && #[trigger] candidate_matches(
                            *self,
                            cursor,
                            *c,
                            bi,
                            bht,
                            bk,
                        );
                    assert(crate::num::screen_ok(c.screen_pos.x as int));
                },
                None => {},
            }
        }
        r
    }

    /// Record the verdict of an external connection validator: the final
    /// validity is the base validity and the verdict together.
    pub fn set_external_validity(&mut self, ok: bool)
        ensures
            final(self).connection == (ConnectionState {
                is_valid: old(self).connection.is_valid && ok,
                ..old(self).connection
            }),
            *final(self) == (FlowState { connection: final(self).connection, ..*old(self) }),
    {
        let v = self.connection.is_valid && ok;
        self.connection.is_valid = v;
    }

    /// Finish a connection gesture: a valid target yields the connection —
    /// applied to the reconnected edge's end when the drag moved one —
    /// anything else yields nothing; the gesture state returns to idle.
    pub fn end_connection(&mut self) -> (r: Option<crate::connection::Connection>)
        ensures
            final(self).connection == crate::connection::idle_connection_state(),
            ({
                let c0 = old(self).connection;
                let committed = c0.in_progress && c0.is_valid;
                &&& r == if committed {
                    crate::connection::to_connection_spec(c0)
                } else {
                    None::<crate::connection::Connection>
                }
                &&& (match (
                    r,
                    c0.reconnect_edge_id,
                    c0.reconnect_end,
                ) {
                    (Some(conn), Some(edge_id), Some(end)) => final(self).edges@
                        == reconnected_edges_spec(old(self).edges@, edge_id@, end, conn),
                    _ => final(self).edges@ == old(self).edges@,
                })
                &&& *final(self) == (FlowState {
                    connection: final(self).connection,
                    edges: final(self).edges,
                    ..*old(self)
                })
            }),
            connection_coords_ok(final(self).connection),
    {
        let reconnect_edge_id = crate::handle::clone_opt_string(&self.connection.reconnect_edge_id);
        let reconnect_end = self.connection.reconnect_end;
        let result = self.connection.end();
        match (&result, reconnect_edge_id, reconnect_end) {
            (Some(conn), Some(edge_id), Some(end)) => {
                match crate::change::find_edge_position(&self.edges, &edge_id) {
                    Some(j) => {
                        let e = &mut self.edges[j];
                        match end {
                            crate::handle::HandleType::Source => {
                                e.source = conn.source.clone();
                                e.source_handle = crate::handle::clone_opt_string(
                                    &conn.source_handle,
                                );
                            },
                            crate::handle::HandleType::Target => {
                                e.target = conn.target.clone();
                                e.target_handle = crate::handle::clone_opt_string(
                                    &conn.target_handle,
                                );
                            },
                        }
                        proof {
                            assert(self.edges@ =~= reconnected_edges_spec(
                                old(self).edges@,
                                edge_id@,
                                end,
                                result->0,
                            ));
                        }
                    },
                    None => {
                        proof {
                            assert(self.edges@ =~= reconnected_edges_spec(
                                old(self).edges@,
                                edge_id@,
                                end,
                                result->0,
                            ));
                        }
                    },
                }
            },
            _ => {},
        }
        result
    }

    /// Begin a marquee selection at a flow point.
    pub fn start_selection(&mut self, flow_pos: XYPosition, additive: bool)
        requires
            crate::num::translate_ok(flow_pos.x as int),
            crate::num::translate_ok(flow_pos.y as int),
        ensures
            *final(self) == (FlowState {
                selection_start: Some(flow_pos),
                selection_additive: additive,
                user_selection_active: true,
                user_selection_rect: Some(
                    crate::geometry::Rect {
                        x: flow_pos.x,
                        y: flow_pos.y,
                        width: 0,
                        height: 0,
                    },
                ),
                multi_selection_active: additive,
                ..*old(self)
            }),
    {
        self.selection_start = Some(flow_pos);
        self.selection_additive = additive;
        self.user_selection_active = true;
        self.user_selection_rect = Some(
            crate::geometry::Rect { x: flow_pos.x, y: flow_pos.y, width: 0, height: 0 },
        );
        self.multi_selection_active = additive;
    }

    /// Track the pointer during a marquee selection: the rectangle spans the
    /// start point and the cursor, whatever the drag direction.
    pub fn selection_pointer_move(&mut self, flow_pos: XYPosition)
        requires
            crate::num::translate_ok(flow_pos.x as int),
            crate::num::translate_ok(flow_pos.y as int),
            old(self).selection_start is Some,
            crate::num::translate_ok(old(self).selection_start->0.x as int),
            crate::num::translate_ok(old(self).selection_start->0.y as int),
        ensures
            *final(self) == (FlowState {
                user_selection_rect: Some(
                    crate::selection::marquee_rect_spec(old(self).selection_start->0, flow_pos),
                ),
                ..*old(self)
            }),
    {
        if let Some(start) = self.selection_start {
            let r = crate::selection::marquee_rect(start, flow_pos);
            self.user_selection_rect = Some(r);
        }
    }

    /// Finish a marquee selection: the rectangle's hits — kept selections
    /// included when the gesture was additive — become selection changes,
    /// and the gesture state clears.
    #[verifier::rlimit(100)]
    pub fn end_marquee_selection(&mut self)
        requires
            config_wf(*old(self)),
            graph_wf(*old(self)),
        ensures
            config_wf(*final(self)),
            graph_wf(*final(self)),
            ({
                let had = old(self).selection_start is Some && old(
                    self,
                ).user_selection_rect is Some;
                let cleared = FlowState {
                    user_selection_active: false,
                    user_selection_rect: None,
                    selection_start: None,
                    selection_additive: false,
                    ..*old(self)
                };
                &&& !had ==> *final(self) == (FlowState {
                    user_selection_active: false,
                    user_selection_rect: old(self).user_selection_rect,
                    selection_start: None,
                    selection_additive: false,
                    ..*old(self)
                })
                &&& had ==> set_nodes_post(
                    cleared,
                    *final(self),
                    apply_node_changes_spec(
                        crate::selection::marquee_changes_from(
                            old(self).nodes@,
                            old(self).internals@,
                            old(self).user_selection_rect->0,
                            old(self).selection_mode,
                            old(self).selection_additive,
                            0,
                        ),
                        old(self).nodes@,
                    ),
                )
            }),
    {
        let had = self.selection_start.is_some() && self.user_selection_rect.is_some();
        if had {
            let rect = match self.user_selection_rect {
                Some(r) => r,
                None => {
                    proof {
                        assert(false);
                    }
                    crate::geometry::Rect { x: 0, y: 0, width: 0, height: 0 }
                },
            };
            let mode = self.selection_mode;
            let additive = self.selection_additive;
            self.user_selection_active = false;
            self.user_selection_rect = None;
            self.selection_start = None;
            self.selection_additive = false;
            let changes = crate::selection::marquee_selection_changes(
                &self.nodes,
                &self.internals,
                rect,
                mode,
                additive,
            );
            proof {
                lemma_marquee_changes_safe(
                    old(self).nodes@,
                    old(self).internals@,
                    rect,
                    mode,
                    additive,
                    0,
                );
                lemma_changes_keep_coords(changes@, self.nodes@);
                assert(config_wf(*self));
                assert(self.internals@ == old(self).internals@);
                assert(self.nodes@ == old(self).nodes@);
                assert(graph_wf(*self));
            }
            self.apply_node_changes(changes);
            proof {
                assert(graph_wf(*self));
            }
        } else {
            self.user_selection_active = false;
            self.selection_start = None;
            self.selection_additive = false;
            proof {
                assert(graph_wf(*self));
            }
        }
    }

    /// Begin a pan at a screen point.
    pub fn start_pan(&mut self, screen_pos: XYPosition)
        ensures
            *final(self) == (FlowState {
                panning: true,
                pan_start: Some(screen_pos),
                pan_start_viewport: old(self).viewport,
                ..*old(self)
            }),
    {
        self.panning = true;
        self.pan_start = Some(screen_pos);
        self.pan_start_viewport = self.viewport;
    }

    /// Track the pointer during a pan: the viewport follows the cursor from
    /// the gesture's base viewport.
    pub fn pan_pointer_move(&mut self, screen_pos: XYPosition)
        requires
            config_wf(*old(self)),
            graph_wf(*old(self)),
            connection_coords_ok(old(self).connection),
            crate::num::screen_ok(screen_pos.x as int),
            crate::num::screen_ok(screen_pos.y as int),
            old(self).pan_start is Some,
            crate::num::screen_ok(old(self).pan_start->0.x as int),
            crate::num::screen_ok(old(self).pan_start->0.y as int),
            viewport_wf(old(self).pan_start_viewport),
            old(self).min_zoom <= old(self).pan_start_viewport.zoom <= old(self).max_zoom,
        ensures
            config_wf(*final(self)),
            graph_wf(*final(self)),
            connection_coords_ok(final(self).connection),
            ({
                let base = old(self).pan_start_viewport;
                let v = Viewport {
                    x: crate::num::clamp_translate_spec(
                        base.x + screen_pos.x - old(self).pan_start->0.x,
                    ) as i64,
                    y: crate::num::clamp_translate_spec(
                        base.y + screen_pos.y - old(self).pan_start->0.y,
                    ) as i64,
                    zoom: base.zoom,
                };
                &&& final(self).viewport == v
                &&& *final(self) == (FlowState {
                    viewport: v,
                    connection: final(self).connection,
                    ..*old(self)
                })
            }),
    {
        let start = match self.pan_start {
            Some(s) => s,
            None => {
                proof {
                    assert(false);
                }
                XYPosition { x: 0, y: 0 }
            },
        };
        let base = self.pan_start_viewport;
        let v = Viewport {
            x: crate::num::clamp_translate(
                (base.x as i128) + (screen_pos.x as i128) - (start.x as i128),
            ),
            y: crate::num::clamp_translate(
                (base.y as i128) + (screen_pos.y as i128) - (start.y as i128),
            ),
            zoom: base.zoom,
        };
        self.commit_viewport(v);
    }

    /// Finish a pan gesture.
    pub fn end_pan(&mut self)
        ensures
            *final(self) == (FlowState { panning: false, pan_start: None, ..*old(self) }),
    {
        self.panning = false;
        self.pan_start = None;
    }
}

/// The marquee's selection changes only flip selection flags, so they are
/// safe for the coordinate range.
proof fn lemma_marquee_changes_safe<T>(
    nodes: Seq<Node<T>>,
    internals: Seq<InternalNode>,
    rect: crate::geometry::Rect,
    mode: SelectionMode,
    additive: bool,
    i: int,
)
    ensures
        changes_coords_safe(
            crate::selection::marquee_changes_from(nodes, internals, rect, mode, additive, i),
        ),
    decreases nodes.len() - i,
{
    if i < 0 || i >= nodes.len() {
    } else {
        lemma_marquee_changes_safe(nodes, internals, rect, mode, additive, i + 1);
        let r = crate::selection::marquee_changes_from(nodes, internals, rect, mode, additive, i);
        let tail = crate::selection::marquee_changes_from(
            nodes,
            internals,
            rect,
            mode,
            additive,
            i + 1,
        );
        assert(forall|k: int|
            0 <= k < tail.len() ==> change_coords_safe(#[trigger] tail[k]));
        assert(forall|k: int|
            0 <= k < r.len() ==> change_coords_safe(#[trigger] r[k])) by {
            assert(forall|k: int|
                r.len() == tail.len() + 1 && 1 <= k < r.len() ==> #[trigger] r[k] == tail[k - 1]);
            assert(forall|k: int|
                r.len() == tail.len() && 0 <= k < r.len() ==> #[trigger] r[k] == tail[k]);
        }
    }
}


/// The selection changes that select every unselected selectable node, from
/// index `i` on.
pub open spec fn select_all_node_changes_from<T>(nodes: Seq<Node<T>>, i: int) -> Seq<NodeChange<T>>
    decreases nodes.len() - i,
{
    if i < 0 || i >= nodes.len() {
        Seq::empty()
    } else {
        let eligible = !nodes[i].selected && (nodes[i].selectable is Some
            ==> nodes[i].selectable->0);
        let head: Seq<NodeChange<T>> = if eligible {
            seq![NodeChange::Selection { id: nodes[i].id, selected: true }]
        } else {
            Seq::empty()
        };
        head + select_all_node_changes_from(nodes, i + 1)
    }
}

/// The selection changes that select every unselected selectable edge, from
/// index `i` on.
pub open spec fn select_all_edge_changes_from<T>(edges: Seq<Edge<T>>, i: int) -> Seq<EdgeChange<T>>
    decreases edges.len() - i,
{
    if i < 0 || i >= edges.len() {
        Seq::empty()
    } else {
        let eligible = !edges[i].selected && (edges[i].selectable is Some
            ==> edges[i].selectable->0);
        let head: Seq<EdgeChange<T>> = if eligible {
            seq![EdgeChange::Selection { id: edges[i].id, selected: true }]
        } else {
            Seq::empty()
        };
        head + select_all_edge_changes_from(edges, i + 1)
    }
}

/// The selection changes that deselect every selected node, from index `i`
/// on.
pub open spec fn deselect_node_changes_from<T>(nodes: Seq<Node<T>>, i: int) -> Seq<NodeChange<T>>
    decreases nodes.len() - i,
{
    if i < 0 || i >= nodes.len() {
        Seq::empty()
    } else {
        let head: Seq<NodeChange<T>> = if nodes[i].selected {
            seq![NodeChange::Selection { id: nodes[i].id, selected: false }]
        } else {
            Seq::empty()
        };
        head + deselect_node_changes_from(nodes, i + 1)
    }
}

/// The selection changes that deselect every selected edge, from index `i`
/// on.
pub open spec fn deselect_edge_changes_from<T>(edges: Seq<Edge<T>>, i: int) -> Seq<EdgeChange<T>>
    decreases edges.len() - i,
{
    if i < 0 || i >= edges.len() {
        Seq::empty()
    } else {
        let head: Seq<EdgeChange<T>> = if edges[i].selected {
            seq![EdgeChange::Selection { id: edges[i].id, selected: false }]
        } else {
            Seq::empty()
        };
        head + deselect_edge_changes_from(edges, i + 1)
    }
}

/// Selection flips only; safe for the coordinate range.
proof fn lemma_select_all_changes_safe<T>(nodes: Seq<Node<T>>, i: int)
    ensures
        changes_coords_safe(select_all_node_changes_from(nodes, i)),
    decreases nodes.len() - i,
{
    if i < 0 || i >= nodes.len() {
    } else {
        lemma_select_all_changes_safe(nodes, i + 1);
        let r = select_all_node_changes_from(nodes, i);
        let tail = select_all_node_changes_from(nodes, i + 1);
        assert forall|k: int| 0 <= k < r.len() implies change_coords_safe(#[trigger] r[k]) by {
            if r.len() == tail.len() + 1 {
                if k >= 1 {
                    assert(r[k] == tail[k - 1]);
                }
            } else {
                assert(r[k] == tail[k]);
            }
        }
    }
}

proof fn lemma_deselect_changes_safe<T>(nodes: Seq<Node<T>>, i: int)
    ensures
        changes_coords_safe(deselect_node_changes_from(nodes, i)),
    decreases nodes.len() - i,
{
    if i < 0 || i >= nodes.len() {
    } else {
        lemma_deselect_changes_safe(nodes, i + 1);
        let r = deselect_node_changes_from(nodes, i);
        let tail = deselect_node_changes_from(nodes, i + 1);
        assert forall|k: int| 0 <= k < r.len() implies change_coords_safe(#[trigger] r[k]) by {
            if r.len() == tail.len() + 1 {
                if k >= 1 {
                    assert(r[k] == tail[k - 1]);
                }
            } else {
                assert(r[k] == tail[k]);
            }
        }
    }
}

/// The default edge a committed connection becomes, under a caller-supplied
/// id: endpoints and handles from the connection, everything else fresh.
pub fn connection_to_edge<E>(
    connection: &crate::connection::Connection,
    edge_type: Option<String>,
    id: String,
) -> (r: Edge<E>)
    ensures
        r.id == id,
        r.source@ == connection.source@,
        r.target@ == connection.target@,
        crate::graph::opt_id_eq(r.source_handle, connection.source_handle),
        crate::graph::opt_id_eq(r.target_handle, connection.target_handle),
        r.edge_type == edge_type,
        r.data is None && !r.animated && !r.selected && !r.hidden,
        r.selectable is None && r.deletable is None && r.focusable is None,
        r.reconnectable is None && r.z_index is None && r.label is None,
        r.marker_start is None && r.marker_end is None,
{
    let mut e = Edge::new(id, connection.source.clone(), connection.target.clone());
    e.source_handle = crate::handle::clone_opt_string(&connection.source_handle);
    e.target_handle = crate::handle::clone_opt_string(&connection.target_handle);
    e.edge_type = edge_type;
    e
}

impl<N, E> FlowState<N, E> {
    /// The indices of the selected nodes, in ascending order.
    pub fn get_selected_nodes(&self) -> (r: Vec<usize>)
        ensures
            forall|k: int|
                0 <= k < r@.len() ==> #[trigger] r@[k] < self.nodes@.len()
                    && self.nodes@[r@[k] as int].selected,
            forall|k1: int, k2: int| 0 <= k1 < k2 < r@.len() ==> r@[k1] < r@[k2],
            forall|j: int|
                0 <= j < self.nodes@.len() && (#[trigger] self.nodes@[j]).selected ==> exists|
                    k: int,
                |
                    0 <= k < r@.len() && #[trigger] r@[k] == j,
    {
        let mut out: Vec<usize> = Vec::new();
        let mut i: usize = 0;
        while i < self.nodes.len()
            invariant
                i <= self.nodes@.len(),
                forall|k: int|
                    0 <= k < out@.len() ==> #[trigger] out@[k] < i
                        && self.nodes@[out@[k] as int].selected,
                forall|k1: int, k2: int| 0 <= k1 < k2 < out@.len() ==> out@[k1] < out@[k2],
                forall|j: int|
                    0 <= j < i && (#[trigger] self.nodes@[j]).selected ==> exists|k: int|
                        0 <= k < out@.len() && #[trigger] out@[k] == j,
            decreases self.nodes@.len() - i,
        {
            let ghost before = out@;
            if self.nodes[i].selected {
                out.push(i);
            }
            proof {
                if self.nodes@[i as int].selected {
                    assert(out@ == before.push(i));
                    assert(forall|k: int|
                        0 <= k < before.len() ==> #[trigger] out@[k] == before[k]);
                    assert(out@[out@.len() - 1] == i);
                }
                assert forall|j: int|
                    0 <= j < i + 1 && (#[trigger] self.nodes@[j]).selected implies exists|k: int|
                    0 <= k < out@.len() && #[trigger] out@[k] == j by {
                    if j == i as int {
                        assert(out@[out@.len() - 1] == j);
                    } else {
                        let k = choose|k: int| 0 <= k < before.len() && #[trigger] before[k] == j;
                        assert(out@[k] == j);
                    }
                }
            }
            i = i + 1;
        }
        out
    }

    /// The indices of the selected edges, in ascending order.
    pub fn get_selected_edges(&self) -> (r: Vec<usize>)
        ensures
            forall|k: int|
                0 <= k < r@.len() ==> #[trigger] r@[k] < self.edges@.len()
                    && self.edges@[r@[k] as int].selected,
            forall|k1: int, k2: int| 0 <= k1 < k2 < r@.len() ==> r@[k1] < r@[k2],
            forall|j: int|
                0 <= j < self.edges@.len() && (#[trigger] self.edges@[j]).selected ==> exists|
                    k: int,
                |
                    0 <= k < r@.len() && #[trigger] r@[k] == j,
    {
        let mut out: Vec<usize> = Vec::new();
        let mut i: usize = 0;
        while i < self.edges.len()
            invariant
                i <= self.edges@.len(),
                forall|k: int|
                    0 <= k < out@.len() ==> #[trigger] out@[k] < i
                        && self.edges@[out@[k] as int].selected,
                forall|k1: int, k2: int| 0 <= k1 < k2 < out@.len() ==> out@[k1] < out@[k2],
                forall|j: int|
                    0 <= j < i && (#[trigger] self.edges@[j]).selected ==> exists|k: int|
                        0 <= k < out@.len() && #[trigger] out@[k] == j,
            decreases self.edges@.len() - i,
        {
            let ghost before = out@;
            if self.edges[i].selected {
                out.push(i);
            }
            proof {
                if self.edges@[i as int].selected {
                    assert(out@ == before.push(i));
                    assert(forall|k: int|
                        0 <= k < before.len() ==> #[trigger] out@[k] == before[k]);
                    assert(out@[out@.len() - 1] == i);
                }
                assert forall|j: int|
                    0 <= j < i + 1 && (#[trigger] self.edges@[j]).selected implies exists|k: int|
                    0 <= k < out@.len() && #[trigger] out@[k] == j by {
                    if j == i as int {
                        assert(out@[out@.len() - 1] == j);
                    } else {
                        let k = choose|k: int| 0 <= k < before.len() && #[trigger] before[k] == j;
                        assert(out@[k] == j);
                    }
                }
            }
            i = i + 1;
        }
        out
    }

    /// The indices of the edges running between the two nodes, either way
    /// round, in ascending order.
    pub fn get_edges_between(&self, source: &String, target: &String) -> (r: Vec<usize>)
        ensures
            forall|k: int|
                0 <= k < r@.len() ==> #[trigger] r@[k] < self.edges@.len() && edge_between(
                    self.edges@[r@[k] as int],
                    source@,
                    target@,
                ),
            forall|k1: int, k2: int| 0 <= k1 < k2 < r@.len() ==> r@[k1] < r@[k2],
            forall|j: int|
                0 <= j < self.edges@.len() && edge_between(
                    #[trigger] self.edges@[j],
                    source@,
                    target@,
                ) ==> exists|k: int| 0 <= k < r@.len() && #[trigger] r@[k] == j,
    {
        let mut out: Vec<usize> = Vec::new();
        let mut i: usize = 0;
        while i < self.edges.len()
            invariant
                i <= self.edges@.len(),
                forall|k: int|
                    0 <= k < out@.len() ==> #[trigger] out@[k] < i && edge_between(
                        self.edges@[out@[k] as int],
                        source@,
                        target@,
                    ),
                forall|k1: int, k2: int| 0 <= k1 < k2 < out@.len() ==> out@[k1] < out@[k2],
                forall|j: int|
                    0 <= j < i && edge_between(#[trigger] self.edges@[j], source@, target@)
                        ==> exists|k: int| 0 <= k < out@.len() && #[trigger] out@[k] == j,
            decreases self.edges@.len() - i,
        {
            let ghost before = out@;
            let hit = (self.edges[i].source == *source && self.edges[i].target == *target) || (
            self.edges[i].source == *target && self.edges[i].target == *source);
            if hit {
                out.push(i);
            }
            proof {
                if hit {
                    assert(out@ == before.push(i));
                    assert(forall|k: int|
                        0 <= k < before.len() ==> #[trigger] out@[k] == before[k]);
                    assert(out@[out@.len() - 1] == i);
                }
                assert forall|j: int|
                    0 <= j < i + 1 && edge_between(#[trigger] self.edges@[j], source@, target@)
                        implies exists|k: int| 0 <= k < out@.len() && #[trigger] out@[k] == j by {
                    if j == i as int {
                        assert(out@[out@.len() - 1] == j);
                    } else {
                        let k = choose|k: int| 0 <= k < before.len() && #[trigger] before[k] == j;
                        assert(out@[k] == j);
                    }
                }
            }
            i = i + 1;
        }
        out
    }

    /// Select every selectable element: one selection change per unselected
    /// selectable node and edge, applied through the reducer.
    pub fn select_all(&mut self)
        requires
            flow_state_wf(*old(self)),
        ensures
            flow_state_wf(*final(self)),
            final(self).edges@ == apply_edge_changes_spec(
                select_all_edge_changes_from(old(self).edges@, 0),
                old(self).edges@,
            ),
            set_nodes_post(
                (FlowState { edges: old(self).edges, ..*final(self) }),
                (FlowState { edges: old(self).edges, ..*final(self) }),
                apply_node_changes_spec(
                    select_all_node_changes_from(old(self).nodes@, 0),
                    old(self).nodes@,
                ),
            ) || set_nodes_post(
                *old(self),
                (FlowState { edges: old(self).edges, ..*final(self) }),
                apply_node_changes_spec(
                    select_all_node_changes_from(old(self).nodes@, 0),
                    old(self).nodes@,
                ),
            ),
    {
        let node_changes = collect_select_all_node_changes(&self.nodes);
        let edge_changes = collect_select_all_edge_changes(&self.edges);
        proof {
            lemma_select_all_changes_safe(self.nodes@, 0);
            lemma_changes_keep_coords(node_changes@, self.nodes@);
        }
        let ghost pre = *self;
        self.apply_node_changes(node_changes);
        let ghost mid = *self;
        self.apply_edge_changes(edge_changes);
        proof {
            assert(mid == (FlowState { edges: pre.edges, ..*self }));
        }
    }

    /// Deselect every element: one selection change per selected node and
    /// edge, applied through the reducer.
    pub fn deselect_all(&mut self)
        requires
            flow_state_wf(*old(self)),
        ensures
            flow_state_wf(*final(self)),
            final(self).edges@ == apply_edge_changes_spec(
                deselect_edge_changes_from(old(self).edges@, 0),
                old(self).edges@,
            ),
            set_nodes_post(
                (FlowState { edges: old(self).edges, ..*final(self) }),
                (FlowState { edges: old(self).edges, ..*final(self) }),
                apply_node_changes_spec(
                    deselect_node_changes_from(old(self).nodes@, 0),
                    old(self).nodes@,
                ),
            ) || set_nodes_post(
                *old(self),
                (FlowState { edges: old(self).edges, ..*final(self) }),
                apply_node_changes_spec(
                    deselect_node_changes_from(old(self).nodes@, 0),
                    old(self).nodes@,
                ),
            ),
    {
        let node_changes = collect_deselect_node_changes(&self.nodes);
        let edge_changes = collect_deselect_edge_changes(&self.edges);
        proof {
            lemma_deselect_changes_safe(self.nodes@, 0);
            lemma_changes_keep_coords(node_changes@, self.nodes@);
        }
        let ghost pre = *self;
        self.apply_node_changes(node_changes);
        let ghost mid = *self;
        self.apply_edge_changes(edge_changes);
        proof {
            assert(mid == (FlowState { edges: pre.edges, ..*self }));
        }
    }

    /// Recompute the derived state from the current node list.  Derivation
    /// is a pure function of the list, so recomputing every entry gives the
    /// listed nodes the same values a targeted recomputation would.
    pub fn update_node_internals(&mut self, node_ids: &Vec<String>)
        requires
            flow_state_wf(*old(self)),
        ensures
            flow_state_wf(*final(self)),
            set_nodes_post(*old(self), *final(self), old(self).nodes@),
    {
        proof {
            assert(node_ids@.len() >= 0);
        }
        let mut taken: Vec<Node<N>> = Vec::new();
        core::mem::swap(&mut taken, &mut self.nodes);
        let ghost mid = *self;
        self.set_nodes(taken);
        proof {
            assert(mid == (FlowState { nodes: mid.nodes, ..*old(self) }));
            assert(set_nodes_post(mid, *self, old(self).nodes@));
            assert(*self == (FlowState {
                nodes: self.nodes,
                internals: self.internals,
                errors: self.errors,
                ..mid
            }));
            assert(*self == (FlowState {
                nodes: self.nodes,
                internals: self.internals,
                errors: self.errors,
                ..*old(self)
            }));
        }
    }
}

/// The edge runs between the two node ids, in either direction.
pub open spec fn edge_between<T>(e: Edge<T>, a: Seq<char>, b: Seq<char>) -> bool {
    (e.source@ == a && e.target@ == b) || (e.source@ == b && e.target@ == a)
}

/// Collect the select-all changes for nodes.
fn collect_select_all_node_changes<T>(nodes: &Vec<Node<T>>) -> (r: Vec<NodeChange<T>>)
    ensures
        r@ == select_all_node_changes_from(nodes@, 0),
{
    let mut changes: Vec<NodeChange<T>> = Vec::new();
    let mut i: usize = 0;
    while i < nodes.len()
        invariant
            i <= nodes@.len(),
            select_all_node_changes_from(nodes@, 0) == changes@ + select_all_node_changes_from(
                nodes@,
                i as int,
            ),
        decreases nodes@.len() - i,
    {
        let ghost before = changes@;
        let eligible = !nodes[i].selected && match nodes[i].selectable {
            Some(s) => s,
            None => true,
        };
        if eligible {
            changes.push(NodeChange::Selection { id: nodes[i].id.clone(), selected: true });
        }
        proof {
            let tail = select_all_node_changes_from(nodes@, i as int + 1);
            if eligible {
                let c = NodeChange::<T>::Selection { id: nodes@[i as int].id, selected: true };
                assert(changes@ =~= before + seq![c]);
                assert((before + seq![c]) + tail =~= before + (seq![c] + tail));
            } else {
                assert(before + (Seq::<NodeChange<T>>::empty() + tail) =~= before + tail);
            }
        }
        i = i + 1;
    }
    proof {
        assert(select_all_node_changes_from(nodes@, nodes@.len() as int) =~= Seq::<
            NodeChange<T>,
        >::empty());
        assert(changes@ + Seq::<NodeChange<T>>::empty() =~= changes@);
    }
    changes
}

/// Collect the select-all changes for edges.
fn collect_select_all_edge_changes<T>(edges: &Vec<Edge<T>>) -> (r: Vec<EdgeChange<T>>)
    ensures
        r@ == select_all_edge_changes_from(edges@, 0),
{
    let mut changes: Vec<EdgeChange<T>> = Vec::new();
    let mut i: usize = 0;
    while i < edges.len()
        invariant
            i <= edges@.len(),
            select_all_edge_changes_from(edges@, 0) == changes@ + select_all_edge_changes_from(
                edges@,
                i as int,
            ),
        decreases edges@.len() - i,
    {
        let ghost before = changes@;
        let eligible = !edges[i].selected && match edges[i].selectable {
            Some(s) => s,
            None => true,
        };
        if eligible {
            changes.push(EdgeChange::Selection { id: edges[i].id.clone(), selected: true });
        }
        proof {
            let tail = select_all_edge_changes_from(edges@, i as int + 1);
            if eligible {
                let c = EdgeChange::<T>::Selection { id: edges@[i as int].id, selected: true };
                assert(changes@ =~= before + seq![c]);
                assert((before + seq![c]) + tail =~= before + (seq![c] + tail));
            } else {
                assert(before + (Seq::<EdgeChange<T>>::empty() + tail) =~= before + tail);
            }
        }
        i = i + 1;
    }
    proof {
        assert(select_all_edge_changes_from(edges@, edges@.len() as int) =~= Seq::<
            EdgeChange<T>,
        >::empty());
        assert(changes@ + Seq::<EdgeChange<T>>::empty() =~= changes@);
    }
    changes
}

/// Collect the deselect changes for nodes.
fn collect_deselect_node_changes<T>(nodes: &Vec<Node<T>>) -> (r: Vec<NodeChange<T>>)
    ensures
        r@ == deselect_node_changes_from(nodes@, 0),
{
    let mut changes: Vec<NodeChange<T>> = Vec::new();
    let mut i: usize = 0;
    while i < nodes.len()
        invariant
            i <= nodes@.len(),
            deselect_node_changes_from(nodes@, 0) == changes@ + deselect_node_changes_from(
                nodes@,
                i as int,
            ),
        decreases nodes@.len() - i,
    {
        let ghost before = changes@;
        if nodes[i].selected {
            changes.push(NodeChange::Selection { id: nodes[i].id.clone(), selected: false });
        }
        proof {
            let tail = deselect_node_changes_from(nodes@, i as int + 1);
            if nodes@[i as int].selected {
                let c = NodeChange::<T>::Selection { id: nodes@[i as int].id, selected: false };
                assert(changes@ =~= before + seq![c]);
                assert((before + seq![c]) + tail =~= before + (seq![c] + tail));
            } else {
                assert(before + (Seq::<NodeChange<T>>::empty() + tail) =~= before + tail);
            }
        }
        i = i + 1;
    }
    proof {
        assert(deselect_node_changes_from(nodes@, nodes@.len() as int) =~= Seq::<
            NodeChange<T>,
        >::empty());
        assert(changes@ + Seq::<NodeChange<T>>::empty() =~= changes@);
    }
    changes
}

/// Collect the deselect changes for edges.
fn collect_deselect_edge_changes<T>(edges: &Vec<Edge<T>>) -> (r: Vec<EdgeChange<T>>)
    ensures
        r@ == deselect_edge_changes_from(edges@, 0),
{
    let mut changes: Vec<EdgeChange<T>> = Vec::new();
    let mut i: usize = 0;
    while i < edges.len()
        invariant
            i <= edges@.len(),
            deselect_edge_changes_from(edges@, 0) == changes@ + deselect_edge_changes_from(
                edges@,
                i as int,
            ),
        decreases edges@.len() - i,
    {
        let ghost before = changes@;
        if edges[i].selected {
            changes.push(EdgeChange::Selection { id: edges[i].id.clone(), selected: false });
        }
        proof {
            let tail = deselect_edge_changes_from(edges@, i as int + 1);
            if edges@[i as int].selected {
                let c = EdgeChange::<T>::Selection { id: edges@[i as int].id, selected: false };
                assert(changes@ =~= before + seq![c]);
                assert((before + seq![c]) + tail =~= before + (seq![c] + tail));
            } else {
                assert(before + (Seq::<EdgeChange<T>>::empty() + tail) =~= before + tail);
            }
        }
        i = i + 1;
    }
    proof {
        assert(deselect_edge_changes_from(edges@, edges@.len() as int) =~= Seq::<
            EdgeChange<T>,
        >::empty());
        assert(changes@ + Seq::<EdgeChange<T>>::empty() =~= changes@);
    }
    changes
}


/// A coordinate snapped to a grid pitch: rounded to the nearest multiple,
/// ties toward positive infinity.
pub open spec fn snapped_coord(v: int, g: int) -> int {
    (v + g / 2) / g * g
}

/// One axis pair clamped into a coordinate extent: the lower bound applies
/// first, then the upper bound less the node's size — the upper bound wins
/// if the extent is smaller than the node.
pub open spec fn clamp_to_extent_spec(
    e: CoordinateExtent,
    x: int,
    y: int,
    dims: crate::geometry::Dimensions,
) -> (int, int) {
    let x1 = match e.min_x {
        Some(lo) => if x < lo {
            lo as int
        } else {
            x
        },
        None => x,
    };
    let x2 = match e.max_x {
        Some(hi) => if x1 > hi - dims.width {
            hi - dims.width
        } else {
            x1
        },
        None => x1,
    };
    let y1 = match e.min_y {
        Some(lo) => if y < lo {
            lo as int
        } else {
            y
        },
        None => y,
    };
    let y2 = match e.max_y {
        Some(hi) => if y1 > hi - dims.height {
            hi - dims.height
        } else {
            y1
        },
        None => y1,
    };
    (x2, y2)
}

/// A node's dragged position clamped by its positional constraint: a
/// `Parent` extent keeps it inside the parent's box, a coordinate extent
/// clamps its absolute position, and no extent passes it through.
pub open spec fn clamp_node_position_spec<N, E>(s: FlowState<N, E>, i: int, x: int, y: int) -> (
    int,
    int,
) {
    let node = s.nodes@[i];
    let dims = node_dimensions_spec(node);
    let extent = if node.extent is Some {
        node.extent
    } else {
        match s.node_extent {
            Some(e) => Some(crate::node::NodeExtent::CoordinateExtent(e)),
            None => None,
        }
    };
    match extent {
        Some(crate::node::NodeExtent::Parent) => match node.parent_id {
            Some(pid) => {
                let p = find_internal_index(s.internals@, pid@);
                if p >= 0 {
                    let pd = s.internals@[p].dimensions;
                    let mx = crate::edge_path::max_int(pd.width - dims.width, 0);
                    let my = crate::edge_path::max_int(pd.height - dims.height, 0);
                    (clamp_spec(x, 0, mx), clamp_spec(y, 0, my))
                } else {
                    (x, y)
                }
            },
            None => (x, y),
        },
        Some(crate::node::NodeExtent::CoordinateExtent(e)) => {
            let pabs: (int, int) = match node.parent_id {
                Some(pid) => {
                    let p = find_internal_index(s.internals@, pid@);
                    if p >= 0 {
                        (
                            s.internals@[p].position_absolute.x as int,
                            s.internals@[p].position_absolute.y as int,
                        )
                    } else {
                        (0, 0)
                    }
                },
                None => (0, 0),
            };
            let c = clamp_to_extent_spec(e, x + pabs.0, y + pabs.1, dims);
            (c.0 - pabs.0, c.1 - pabs.1)
        },
        None => (x, y),
    }
}

/// The position a dragged node lands on: the start position moved by the
/// drag delta, snapped to the grid when snapping is on, clamped by the
/// node's extent, and forced into the flow range.
pub open spec fn drag_target_spec<N, E>(
    s: FlowState<N, E>,
    entry_id: Seq<char>,
    start: XYPosition,
    dx: int,
    dy: int,
) -> (int, int) {
    let raw = (start.x + dx, start.y + dy);
    let sn = if s.snap_to_grid {
        (snapped_coord(raw.0, s.snap_grid.0 as int), snapped_coord(raw.1, s.snap_grid.1 as int))
    } else {
        raw
    };
    let inr = (
        clamp_spec(sn.0, -COORD_MAX as int, COORD_MAX as int),
        clamp_spec(sn.1, -COORD_MAX as int, COORD_MAX as int),
    );
    let j = find_node_index(s.nodes@, entry_id);
    let cl = if j >= 0 {
        clamp_node_position_spec(s, j, inr.0, inr.1)
    } else {
        inr
    };
    (
        clamp_spec(cl.0, -COORD_MAX as int, COORD_MAX as int),
        clamp_spec(cl.1, -COORD_MAX as int, COORD_MAX as int),
    )
}

/// The position changes a drag step emits, one per dragged node from entry
/// `k` on, each dragging and landing on its drag target.
pub open spec fn drag_move_changes_from<N, E>(
    s: FlowState<N, E>,
    entries: Seq<(String, XYPosition)>,
    dx: int,
    dy: int,
    k: int,
) -> Seq<NodeChange<N>>
    decreases entries.len() - k,
{
    if k < 0 || k >= entries.len() {
        Seq::empty()
    } else {
        let t = drag_target_spec(s, entries[k].0@, entries[k].1, dx, dy);
        seq![
            NodeChange::Position {
                id: entries[k].0,
                position: Some(XYPosition { x: t.0 as i64, y: t.1 as i64 }),
                dragging: true,
            },
        ] + drag_move_changes_from(s, entries, dx, dy, k + 1)
    }
}

/// The position changes that commit a finished drag: one per dragged node,
/// keeping its position and clearing its dragging flag.
pub open spec fn drag_stop_changes_from<N>(entries: Seq<(String, XYPosition)>, k: int) -> Seq<
    NodeChange<N>,
>
    decreases entries.len() - k,
{
    if k < 0 || k >= entries.len() {
        Seq::empty()
    } else {
        seq![NodeChange::<N>::Position { id: entries[k].0, position: None, dragging: false }]
            + drag_stop_changes_from(entries, k + 1)
    }
}

/// Drag-move changes carry clamped positions; safe for the coordinate range.
proof fn lemma_drag_move_changes_safe<N, E>(
    s: FlowState<N, E>,
    entries: Seq<(String, XYPosition)>,
    dx: int,
    dy: int,
    k: int,
)
    ensures
        changes_coords_safe(drag_move_changes_from(s, entries, dx, dy, k)),
    decreases entries.len() - k,
{
    if k < 0 || k >= entries.len() {
    } else {
        lemma_drag_move_changes_safe(s, entries, dx, dy, k + 1);
        let r = drag_move_changes_from(s, entries, dx, dy, k);
        let tail = drag_move_changes_from(s, entries, dx, dy, k + 1);
        assert forall|q: int| 0 <= q < r.len() implies change_coords_safe(#[trigger] r[q]) by {
            if q >= 1 {
                assert(r[q] == tail[q - 1]);
            }
        }
    }
}

/// Drag-stop changes carry no position; safe for the coordinate range.
proof fn lemma_drag_stop_changes_safe<N>(entries: Seq<(String, XYPosition)>, k: int)
    ensures
        changes_coords_safe(drag_stop_changes_from::<N>(entries, k)),
    decreases entries.len() - k,
{
    if k < 0 || k >= entries.len() {
    } else {
        lemma_drag_stop_changes_safe::<N>(entries, k + 1);
        let r = drag_stop_changes_from::<N>(entries, k);
        let tail = drag_stop_changes_from::<N>(entries, k + 1);
        assert forall|q: int| 0 <= q < r.len() implies change_coords_safe(#[trigger] r[q]) by {
            if q >= 1 {
                assert(r[q] == tail[q - 1]);
            }
        }
    }
}

/// The node takes part in a drag that started on node `oi`: the origin
/// itself, and — when the origin was selected — every other selected
/// draggable node.
pub open spec fn drag_entry_eligible<T>(nodes: Seq<Node<T>>, oi: int, i: int) -> bool {
    i == oi || (nodes[oi].selected && nodes[i].selected && (nodes[i].draggable is Some
        ==> nodes[i].draggable->0))
}

/// The drag set of a press on node `oi`: each participating node's id and
/// start position, in node order from index `i`.
pub open spec fn drag_entries_from<T>(nodes: Seq<Node<T>>, oi: int, i: int) -> Seq<
    (String, XYPosition),
>
    decreases nodes.len() - i,
{
    if i < 0 || i >= nodes.len() {
        Seq::empty()
    } else {
        let head: Seq<(String, XYPosition)> = if drag_entry_eligible(nodes, oi, i) {
            seq![(nodes[i].id, nodes[i].position)]
        } else {
            Seq::empty()
        };
        head + drag_entries_from(nodes, oi, i + 1)
    }
}

impl<N, E> FlowState<N, E> {
    /// A node's dragged position clamped by its positional constraint.
    pub fn clamp_node_position(&self, node_index: usize, next: XYPosition) -> (r: XYPosition)
        requires
            flow_state_wf(*self),
            node_index < self.nodes@.len(),
            crate::geometry::point_ok(next),
        ensures
            (r.x as int, r.y as int) == clamp_node_position_spec(
                *self,
                node_index as int,
                next.x as int,
                next.y as int,
            ),
    {
        proof {
            assert(crate::graph::node_coords_ok(self.nodes@[node_index as int]));
        }
        let dims = self.nodes[node_index].get_dimensions();
        let extent: Option<crate::node::NodeExtent> = match self.nodes[node_index].extent {
            Some(e) => Some(e),
            None => match self.node_extent {
                Some(e) => Some(crate::node::NodeExtent::CoordinateExtent(e)),
                None => None,
            },
        };
        match extent {
            Some(crate::node::NodeExtent::Parent) => {
                match &self.nodes[node_index].parent_id {
                    Some(pid) => match find_internal_position(&self.internals, pid) {
                        Some(p) => {
                            proof {
                                assert(coord_ok(
                                    self.internals@[p as int].position_absolute.x as int,
                                ));
                                assert(coord_ok(self.internals@[p as int].dimensions.width as int));
                            }
                            let pd = self.internals[p].dimensions;
                            let mx = crate::num::max_i64(pd.width - dims.width, 0);
                            let my = crate::num::max_i64(pd.height - dims.height, 0);
                            XYPosition {
                                x: crate::num::clamp_i64(next.x, 0, mx),
                                y: crate::num::clamp_i64(next.y, 0, my),
                            }
                        },
                        None => next,
                    },
                    None => next,
                }
            },
            Some(crate::node::NodeExtent::CoordinateExtent(e)) => {
                let (px, py): (i64, i64) = match &self.nodes[node_index].parent_id {
                    Some(pid) => match find_internal_position(&self.internals, pid) {
                        Some(p) => {
                            proof {
                                assert(coord_ok(
                                    self.internals@[p as int].position_absolute.x as int,
                                ));
                            }
                            (
                                self.internals[p].position_absolute.x,
                                self.internals[p].position_absolute.y,
                            )
                        },
                        None => (0, 0),
                    },
                    None => (0, 0),
                };
                proof {
                    assert(crate::graph::node_coords_ok(self.nodes@[node_index as int]));
                    assert(crate::viewport::extent_ok(e));
                }
                let ax = next.x + px;
                let ay = next.y + py;
                let x1 = match e.min_x {
                    Some(lo) => if ax < lo {
                        lo
                    } else {
                        ax
                    },
                    None => ax,
                };
                let x2 = match e.max_x {
                    Some(hi) => if x1 > hi - dims.width {
                        hi - dims.width
                    } else {
                        x1
                    },
                    None => x1,
                };
                let y1 = match e.min_y {
                    Some(lo) => if ay < lo {
                        lo
                    } else {
                        ay
                    },
                    None => ay,
                };
                let y2 = match e.max_y {
                    Some(hi) => if y1 > hi - dims.height {
                        hi - dims.height
                    } else {
                        y1
                    },
                    None => y1,
                };
                XYPosition { x: x2 - px, y: y2 - py }
            },
            None => next,
        }
    }

    /// Begin a node drag from a press on a node: the origin and — when it
    /// was selected — every selected draggable node join the drag with
    /// their start positions; an unknown, undraggable or globally locked
    /// origin leaves the state unchanged.
    pub fn start_node_drag(&mut self, origin_id: &String, pointer_flow: XYPosition)
        requires
            flow_state_wf(*old(self)),
            crate::geometry::point_ok(pointer_flow),
        ensures
            ({
                let oi = find_node_index(old(self).nodes@, origin_id@);
                let startable = old(self).nodes_draggable && oi >= 0 && (old(
                    self,
                ).nodes@[oi].draggable is Some ==> old(self).nodes@[oi].draggable->0);
                &&& !startable ==> *final(self) == *old(self)
                &&& startable ==> final(self).node_drag is Some && {
                    let d = final(self).node_drag->0;
                    &&& d.origin_node_id == old(self).nodes@[oi].id
                    &&& d.start_pointer == pointer_flow
                    &&& !d.started
                    &&& d.nodes@ == drag_entries_from(old(self).nodes@, oi, 0)
                } && *final(self) == (FlowState {
                    node_drag: final(self).node_drag,
                    ..*old(self)
                })
            }),
            flow_state_wf(*final(self)),
    {
        if !self.nodes_draggable {
            return ;
        }
        let oi = match find_node_position(&self.nodes, origin_id) {
            Some(i) => i,
            None => {
                return ;
            },
        };
        let draggable = match self.nodes[oi].draggable {
            Some(d) => d,
            None => true,
        };
        if !draggable {
            return ;
        }
        let group = self.nodes[oi].selected;
        let mut entries: Vec<(String, XYPosition)> = Vec::new();
        let mut i: usize = 0;
        while i < self.nodes.len()
            invariant
                i <= self.nodes@.len(),
                oi < self.nodes@.len(),
                group == self.nodes@[oi as int].selected,
                drag_entries_from(self.nodes@, oi as int, 0) == entries@ + drag_entries_from(
                    self.nodes@,
                    oi as int,
                    i as int,
                ),
            decreases self.nodes@.len() - i,
        {
            let ghost before = entries@;
            let eligible = i == oi || (group && self.nodes[i].selected && match self.nodes[
                i
            ].draggable {
                Some(d) => d,
                None => true,
            });
            if eligible {
                entries.push((self.nodes[i].id.clone(), self.nodes[i].position));
            }
            proof {
                let tail = drag_entries_from(self.nodes@, oi as int, i as int + 1);
                if drag_entry_eligible(self.nodes@, oi as int, i as int) {
                    let h = (self.nodes@[i as int].id, self.nodes@[i as int].position);
                    assert(entries@ =~= before + seq![h]);
                    assert((before + seq![h]) + tail =~= before + (seq![h] + tail));
                } else {
                    assert(before + (Seq::<(String, XYPosition)>::empty() + tail) =~= before
                        + tail);
                }
            }
            i = i + 1;
        }
        proof {
            assert(drag_entries_from(self.nodes@, oi as int, self.nodes@.len() as int) =~= Seq::<
                (String, XYPosition),
            >::empty());
            assert(entries@ + Seq::<(String, XYPosition)>::empty() =~= entries@);
        }
        let origin_node_id = self.nodes[oi].id.clone();
        self.node_drag = Some(
            NodeDragState {
                origin_node_id,
                start_pointer: pointer_flow,
                nodes: entries,
                started: false,
            },
        );
    }

    /// Finish a node drag: each dragged node keeps its position and drops
    /// its dragging flag, and the drag state clears.
    pub fn end_node_drag(&mut self)
        requires
            flow_state_wf(*old(self)),
        ensures
            flow_state_wf(*final(self)),
            final(self).node_drag is None,
            ({
                match old(self).node_drag {
                    None => *final(self) == *old(self),
                    Some(d) => set_nodes_post(
                        (FlowState { node_drag: None, ..*old(self) }),
                        *final(self),
                        apply_node_changes_spec(
                            drag_stop_changes_from(d.nodes@, 0),
                            old(self).nodes@,
                        ),
                    ),
                }
            }),
    {
        let mut drag_opt: Option<NodeDragState> = None;
        core::mem::swap(&mut drag_opt, &mut self.node_drag);
        let drag = match drag_opt {
            Some(d) => d,
            None => {
                return ;
            },
        };
        let mut changes: Vec<NodeChange<N>> = Vec::new();
        let mut k: usize = 0;
        while k < drag.nodes.len()
            invariant
                k <= drag.nodes@.len(),
                drag_stop_changes_from::<N>(drag.nodes@, 0) == changes@
                    + drag_stop_changes_from::<N>(drag.nodes@, k as int),
            decreases drag.nodes@.len() - k,
        {
            let ghost before = changes@;
            changes.push(
                NodeChange::Position { id: drag.nodes[k].0.clone(), position: None, dragging:
                    false },
            );
            proof {
                let tail = drag_stop_changes_from::<N>(drag.nodes@, k as int + 1);
                let c = NodeChange::<N>::Position {
                    id: drag.nodes@[k as int].0,
                    position: None,
                    dragging: false,
                };
                assert(changes@ =~= before + seq![c]);
                assert((before + seq![c]) + tail =~= before + (seq![c] + tail));
            }
            k = k + 1;
        }
        proof {
            assert(drag_stop_changes_from::<N>(drag.nodes@, drag.nodes@.len() as int) =~= Seq::<
                NodeChange<N>,
            >::empty());
            assert(changes@ + Seq::<NodeChange<N>>::empty() =~= changes@);
            lemma_drag_stop_changes_safe::<N>(drag.nodes@, 0);
            lemma_changes_keep_coords(changes@, self.nodes@);
        }
        self.apply_node_changes(changes);
    }

    /// Apply a click on a node: with the multi-select key the node's
    /// selection toggles alone; without it the node becomes the only
    /// selected element and every selected edge is deselected.
    pub fn click_select(&mut self, node_id: &String, multi: bool)
        requires
            flow_state_wf(*old(self)),
        ensures
            flow_state_wf(*final(self)),
            ({
                let i = find_node_index(old(self).nodes@, node_id@);
                &&& (multi && i >= 0) ==> set_nodes_post(
                    (FlowState { edges: final(self).edges, ..*old(self) }),
                    *final(self),
                    apply_node_changes_spec(
                        seq![
                            NodeChange::<N>::Selection {
                                id: old(self).nodes@[i].id,
                                selected: !old(self).nodes@[i].selected,
                            },
                        ],
                        old(self).nodes@,
                    ),
                ) && final(self).edges@ == old(self).edges@
                &&& (multi && i < 0) ==> *final(self) == *old(self)
                &&& !multi ==> final(self).edges@ == apply_edge_changes_spec(
                    deselect_edge_changes_from(old(self).edges@, 0),
                    old(self).edges@,
                ) && set_nodes_post(
                    (FlowState { edges: final(self).edges, ..*old(self) }),
                    *final(self),
                    apply_node_changes_spec(
                        crate::change::selection_changes_from(
                            old(self).nodes@,
                            seq![*node_id],
                            0,
                        ),
                        old(self).nodes@,
                    ),
                )
            }),
    {
        if multi {
            let i = match find_node_position(&self.nodes, node_id) {
                Some(i) => i,
                None => {
                    return ;
                },
            };
            let next = !self.nodes[i].selected;
            let mut changes: Vec<NodeChange<N>> = Vec::new();
            changes.push(NodeChange::Selection { id: self.nodes[i].id.clone(), selected: next });
            proof {
                assert(changes@ =~= seq![
                    NodeChange::<N>::Selection {
                        id: self.nodes@[i as int].id,
                        selected: !self.nodes@[i as int].selected,
                    },
                ]);
                assert(changes_coords_safe(changes@)) by {
                    assert(forall|q: int|
                        0 <= q < changes@.len() ==> change_coords_safe(#[trigger] changes@[q]));
                }
                lemma_changes_keep_coords(changes@, self.nodes@);
            }
            let ghost pre = *self;
            self.apply_node_changes(changes);
            proof {
                assert(pre == (FlowState { edges: self.edges, ..*old(self) }));
            }
        } else {
            let edge_changes = collect_deselect_edge_changes(&self.edges);
            self.apply_edge_changes(edge_changes);
            let mut ids: Vec<String> = Vec::new();
            ids.push(node_id.clone());
            proof {
                assert(ids@ =~= seq![*node_id]);
            }
            let node_changes = crate::change::get_selection_changes(&self.nodes, &ids);
            proof {
                lemma_selection_changes_from_safe(self.nodes@, ids@, 0);
                lemma_changes_keep_coords(node_changes@, self.nodes@);
            }
            let ghost pre = *self;
            self.apply_node_changes(node_changes);
            proof {
                assert(pre == (FlowState { edges: self.edges, ..*old(self) }));
            }
        }
    }

    /// Remove every selected deletable node, and every edge that is itself
    /// selected and deletable or touches a removed node — the caller-level
    /// edge cascade of a deletion.
    pub fn delete_selected(&mut self)
        requires
            flow_state_wf(*old(self)),
        ensures
            flow_state_wf(*final(self)),
            final(self).edges@ == apply_edge_changes_spec(
                delete_edge_changes_from(old(self).nodes@, old(self).edges@, 0),
                old(self).edges@,
            ),
            set_nodes_post(
                (FlowState { edges: final(self).edges, ..*old(self) }),
                *final(self),
                apply_node_changes_spec(
                    delete_node_changes_from(old(self).nodes@, 0),
                    old(self).nodes@,
                ),
            ),
    {
        let edge_changes = collect_delete_edge_changes(&self.nodes, &self.edges);
        let node_changes = collect_delete_node_changes(&self.nodes);
        proof {
            lemma_delete_node_changes_safe(self.nodes@, 0);
            lemma_changes_keep_coords(node_changes@, self.nodes@);
        }
        self.apply_edge_changes(edge_changes);
        let ghost pre = *self;
        self.apply_node_changes(node_changes);
        proof {
            assert(pre == (FlowState { edges: self.edges, ..*old(self) }));
        }
    }

    /// Finish whatever gesture is in flight, in one call: a connection
    /// commit or cancel first, then a drag commit — which ends the
    /// interaction — then the marquee, then the pan.
    pub fn end_interaction(&mut self) -> (r: Option<crate::connection::Connection>)
        requires
            flow_state_wf(*old(self)),
        ensures
            flow_state_wf(*final(self)),
            final(self).connection == crate::connection::idle_connection_state(),
            r == (if old(self).connection.in_progress && old(self).connection.is_valid {
                crate::connection::to_connection_spec(old(self).connection)
            } else {
                None::<crate::connection::Connection>
            }),
            final(self).node_drag is None,
            old(self).node_drag is None ==> !final(self).user_selection_active
                && final(self).selection_start is None && !final(self).panning
                && final(self).pan_start is None,
    {
        let result = self.end_connection();
        if self.node_drag.is_some() {
            self.end_node_drag();
            return result;
        }
        self.end_node_drag();
        self.end_marquee_selection();
        self.end_pan();
        result
    }
}

/// The node is selected and deletable.
pub open spec fn node_delete_eligible<T>(n: Node<T>) -> bool {
    n.selected && (n.deletable is Some ==> n.deletable->0)
}

/// The ids of the nodes a deletion removes, in node order from index `i`.
pub open spec fn deleted_node_ids_from<T>(nodes: Seq<Node<T>>, i: int) -> Seq<String>
    decreases nodes.len() - i,
{
    if i < 0 || i >= nodes.len() {
        Seq::empty()
    } else {
        let head: Seq<String> = if node_delete_eligible(nodes[i]) {
            seq![nodes[i].id]
        } else {
            Seq::empty()
        };
        head + deleted_node_ids_from(nodes, i + 1)
    }
}

/// The removal changes of a deletion, one per selected deletable node.
pub open spec fn delete_node_changes_from<T>(nodes: Seq<Node<T>>, i: int) -> Seq<NodeChange<T>>
    decreases nodes.len() - i,
{
    if i < 0 || i >= nodes.len() {
        Seq::empty()
    } else {
        let head: Seq<NodeChange<T>> = if node_delete_eligible(nodes[i]) {
            seq![NodeChange::Remove { id: nodes[i].id }]
        } else {
            Seq::empty()
        };
        head + delete_node_changes_from(nodes, i + 1)
    }
}

/// The edge is removed by a deletion: itself selected and deletable, or
/// touching a removed node.
pub open spec fn edge_delete_eligible<N, T>(nodes: Seq<Node<N>>, e: Edge<T>) -> bool {
    ||| (e.selected && (e.deletable is Some ==> e.deletable->0))
    ||| crate::change::seq_contains_string(deleted_node_ids_from(nodes, 0), e.source@)
    ||| crate::change::seq_contains_string(deleted_node_ids_from(nodes, 0), e.target@)
}

/// The removal changes of a deletion's edge cascade.
pub open spec fn delete_edge_changes_from<N, T>(
    nodes: Seq<Node<N>>,
    edges: Seq<Edge<T>>,
    j: int,
) -> Seq<EdgeChange<T>>
    decreases edges.len() - j,
{
    if j < 0 || j >= edges.len() {
        Seq::empty()
    } else {
        let head: Seq<EdgeChange<T>> = if edge_delete_eligible(nodes, edges[j]) {
            seq![EdgeChange::Remove { id: edges[j].id }]
        } else {
            Seq::empty()
        };
        head + delete_edge_changes_from(nodes, edges, j + 1)
    }
}

/// Removal changes are safe for the coordinate range.
proof fn lemma_delete_node_changes_safe<T>(nodes: Seq<Node<T>>, i: int)
    ensures
        changes_coords_safe(delete_node_changes_from(nodes, i)),
    decreases nodes.len() - i,
{
    if i < 0 || i >= nodes.len() {
    } else {
        lemma_delete_node_changes_safe(nodes, i + 1);
        let r = delete_node_changes_from(nodes, i);
        let tail = delete_node_changes_from(nodes, i + 1);
        assert forall|q: int| 0 <= q < r.len() implies change_coords_safe(#[trigger] r[q]) by {
            if r.len() == tail.len() + 1 {
                if q >= 1 {
                    assert(r[q] == tail[q - 1]);
                }
            } else {
                assert(r[q] == tail[q]);
            }
        }
    }
}

/// Selection changes toward a target id list are safe for the coordinate
/// range.
proof fn lemma_selection_changes_from_safe<T>(nodes: Seq<Node<T>>, ids: Seq<String>, i: int)
    ensures
        changes_coords_safe(crate::change::selection_changes_from(nodes, ids, i)),
    decreases nodes.len() - i,
{
    if i < 0 || i >= nodes.len() {
    } else {
        lemma_selection_changes_from_safe(nodes, ids, i + 1);
        let r = crate::change::selection_changes_from(nodes, ids, i);
        let tail = crate::change::selection_changes_from(nodes, ids, i + 1);
        assert forall|q: int| 0 <= q < r.len() implies change_coords_safe(#[trigger] r[q]) by {
            if r.len() == tail.len() + 1 {
                if q >= 1 {
                    assert(r[q] == tail[q - 1]);
                }
            } else {
                assert(r[q] == tail[q]);
            }
        }
    }
}

/// Collect the removal changes of a deletion's nodes.
fn collect_delete_node_changes<T>(nodes: &Vec<Node<T>>) -> (r: Vec<NodeChange<T>>)
    ensures
        r@ == delete_node_changes_from(nodes@, 0),
{
    let mut changes: Vec<NodeChange<T>> = Vec::new();
    let mut i: usize = 0;
    while i < nodes.len()
        invariant
            i <= nodes@.len(),
            delete_node_changes_from(nodes@, 0) == changes@ + delete_node_changes_from(
                nodes@,
                i as int,
            ),
        decreases nodes@.len() - i,
    {
        let ghost before = changes@;
        let eligible = nodes[i].selected && match nodes[i].deletable {
            Some(d) => d,
            None => true,
        };
        if eligible {
            changes.push(NodeChange::Remove { id: nodes[i].id.clone() });
        }
        proof {
            let tail = delete_node_changes_from(nodes@, i as int + 1);
            if node_delete_eligible(nodes@[i as int]) {
                let c = NodeChange::<T>::Remove { id: nodes@[i as int].id };
                assert(changes@ =~= before + seq![c]);
                assert((before + seq![c]) + tail =~= before + (seq![c] + tail));
            } else {
                assert(before + (Seq::<NodeChange<T>>::empty() + tail) =~= before + tail);
            }
        }
        i = i + 1;
    }
    proof {
        assert(delete_node_changes_from(nodes@, nodes@.len() as int) =~= Seq::<
            NodeChange<T>,
        >::empty());
        assert(changes@ + Seq::<NodeChange<T>>::empty() =~= changes@);
    }
    changes
}

/// Collect the ids a deletion removes.
fn collect_deleted_ids<T>(nodes: &Vec<Node<T>>) -> (r: Vec<String>)
    ensures
        r@ == deleted_node_ids_from(nodes@, 0),
{
    let mut ids: Vec<String> = Vec::new();
    let mut i: usize = 0;
    while i < nodes.len()
        invariant
            i <= nodes@.len(),
            deleted_node_ids_from(nodes@, 0) == ids@ + deleted_node_ids_from(nodes@, i as int),
        decreases nodes@.len() - i,
    {
        let ghost before = ids@;
        let eligible = nodes[i].selected && match nodes[i].deletable {
            Some(d) => d,
            None => true,
        };
        if eligible {
            ids.push(nodes[i].id.clone());
        }
        proof {
            let tail = deleted_node_ids_from(nodes@, i as int + 1);
            if node_delete_eligible(nodes@[i as int]) {
                let c = nodes@[i as int].id;
                assert(ids@ =~= before + seq![c]);
                assert((before + seq![c]) + tail =~= before + (seq![c] + tail));
            } else {
                assert(before + (Seq::<String>::empty() + tail) =~= before + tail);
            }
        }
        i = i + 1;
    }
    proof {
        assert(deleted_node_ids_from(nodes@, nodes@.len() as int) =~= Seq::<String>::empty());
        assert(ids@ + Seq::<String>::empty() =~= ids@);
    }
    ids
}

/// Collect the removal changes of a deletion's edge cascade.
fn collect_delete_edge_changes<N, T>(nodes: &Vec<Node<N>>, edges: &Vec<Edge<T>>) -> (r: Vec<
    EdgeChange<T>,
>)
    ensures
        r@ == delete_edge_changes_from(nodes@, edges@, 0),
{
    let removed = collect_deleted_ids(nodes);
    let mut changes: Vec<EdgeChange<T>> = Vec::new();
    let mut j: usize = 0;
    while j < edges.len()
        invariant
            j <= edges@.len(),
            removed@ == deleted_node_ids_from(nodes@, 0),
            delete_edge_changes_from(nodes@, edges@, 0) == changes@ + delete_edge_changes_from(
                nodes@,
                edges@,
                j as int,
            ),
        decreases edges@.len() - j,
    {
        let ghost before = changes@;
        let own = edges[j].selected && match edges[j].deletable {
            Some(d) => d,
            None => true,
        };
        let eligible = own || crate::change::vec_contains_string(&removed, &edges[j].source)
            || crate::change::vec_contains_string(&removed, &edges[j].target);
        if eligible {
            changes.push(EdgeChange::Remove { id: edges[j].id.clone() });
        }
        proof {
            let tail = delete_edge_changes_from(nodes@, edges@, j as int + 1);
            if edge_delete_eligible(nodes@, edges@[j as int]) {
                let c = EdgeChange::<T>::Remove { id: edges@[j as int].id };
                assert(changes@ =~= before + seq![c]);
                assert((before + seq![c]) + tail =~= before + (seq![c] + tail));
            } else {
                assert(before + (Seq::<EdgeChange<T>>::empty() + tail) =~= before + tail);
            }
        }
        j = j + 1;
    }
    proof {
        assert(delete_edge_changes_from(nodes@, edges@, edges@.len() as int) =~= Seq::<
            EdgeChange<T>,
        >::empty());
        assert(changes@ + Seq::<EdgeChange<T>>::empty() =~= changes@);
    }
    changes
}

} // verus!
