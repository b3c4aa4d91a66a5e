//! Marquee selection: a drag-drawn rectangle selects nodes by containment or
//! overlap.

use vstd::prelude::*;
use crate::change::NodeChange;
use crate::geometry::{rect_contains_rect, rects_intersect, Rect, XYPosition};
use crate::node::{InternalNode, Node};
use crate::num::translate_ok;

verus! {

/// Whether the marquee must fully contain a node's box to select it, or any
/// overlap is enough.
#[derive(Clone, Copy, PartialEq, Eq, Structural, Debug)]
pub enum SelectionMode {
    Partial,
    Full,
}

impl Default for SelectionMode {
    fn default() -> (r: Self)
        ensures
            r == SelectionMode::Partial,
    {
        SelectionMode::Partial
    }
}

/// The normalized rectangle between the drag start and the cursor: origin at
/// the componentwise minimum, extent the componentwise distance.
pub open spec fn marquee_rect_spec(start: XYPosition, current: XYPosition) -> Rect {
    Rect {
        x: if current.x < start.x {
            current.x
        } else {
            start.x
        },
        y: if current.y < start.y {
            current.y
        } else {
            start.y
        },
        width: (if current.x < start.x {
            start.x - current.x
        } else {
            current.x - start.x
        }) as i64,
        height: (if current.y < start.y {
            start.y - current.y
        } else {
            current.y - start.y
        }) as i64,
    }
}

/// Normalize a drag start and cursor into a marquee rectangle, whatever the
/// drag direction.
pub fn marquee_rect(start: XYPosition, current: XYPosition) -> (r: Rect)
    requires
        translate_ok(start.x as int),
        translate_ok(start.y as int),
        translate_ok(current.x as int),
        translate_ok(current.y as int),
    ensures
        r == marquee_rect_spec(start, current),
{
    let (min_x, max_x) = if current.x < start.x {
        (current.x, start.x)
    } else {
        (start.x, current.x)
    };
    let (min_y, max_y) = if current.y < start.y {
        (current.y, start.y)
    } else {
        (start.y, current.y)
    };
    Rect { x: min_x, y: min_y, width: max_x - min_x, height: max_y - min_y }
}

/// The marquee hits the node box: in `Full` mode the marquee must contain
/// it, in `Partial` mode overlap suffices.
pub open spec fn marquee_hit(mode: SelectionMode, marquee: Rect, node_box: Rect) -> bool {
    match mode {
        SelectionMode::Full => rect_contains_rect(marquee, node_box),
        SelectionMode::Partial => rects_intersect(marquee, node_box),
    }
}

/// The node may be picked up by a marquee: visible and selectable.
pub open spec fn node_marquee_eligible<T>(n: Node<T>) -> bool {
    !n.hidden && (n.selectable is Some ==> n.selectable->0)
}

/// The flow-space box of a node's derived state.
pub open spec fn internal_rect(internal: InternalNode) -> Rect {
    Rect {
        x: internal.position_absolute.x,
        y: internal.position_absolute.y,
        width: internal.dimensions.width,
        height: internal.dimensions.height,
    }
}

/// Whether the marquee leaves the node selected: an eligible node inside the
/// marquee, or — with the additive flag — a node that was already selected.
pub open spec fn marquee_target<T>(
    n: Node<T>,
    internal: InternalNode,
    marquee: Rect,
    mode: SelectionMode,
    additive: bool,
) -> bool {
    (node_marquee_eligible(n) && marquee_hit(mode, marquee, internal_rect(internal))) || (additive
        && n.selected)
}

/// The selection changes a finished marquee emits for nodes from `i` on: one
/// per node whose selected flag differs from its marquee target.
pub open spec fn marquee_changes_from<T>(
    nodes: Seq<Node<T>>,
    internals: Seq<InternalNode>,
    marquee: Rect,
    mode: SelectionMode,
    additive: bool,
    i: int,
) -> Seq<NodeChange<T>>
    decreases nodes.len() - i,
{
    if i < 0 || i >= nodes.len() {
        Seq::empty()
    } else {
        let target = marquee_target(nodes[i], internals[i], marquee, mode, additive);
        let head: Seq<NodeChange<T>> = if nodes[i].selected != target {
            seq![NodeChange::Selection { id: nodes[i].id, selected: target }]
        } else {
            Seq::empty()
        };
        head + marquee_changes_from(nodes, internals, marquee, mode, additive, i + 1)
    }
}

/// The selection changes a finished marquee emits, in node order.
pub fn marquee_selection_changes<N>(
    nodes: &Vec<Node<N>>,
    internals: &Vec<InternalNode>,
    marquee: Rect,
    mode: SelectionMode,
    additive: bool,
) -> (r: Vec<NodeChange<N>>)
    requires
        internals@.len() == nodes@.len(),
    ensures
        r@ == marquee_changes_from(nodes@, internals@, marquee, mode, additive, 0),
{
    let mut changes: Vec<NodeChange<N>> = Vec::new();
    let mut i: usize = 0;
    while i < nodes.len()
        invariant
            i <= nodes@.len(),
            internals@.len() == nodes@.len(),
            marquee_changes_from(nodes@, internals@, marquee, mode, additive, 0) == changes@
                + marquee_changes_from(nodes@, internals@, marquee, mode, additive, i as int),
        decreases nodes@.len() - i,
    {
        let ghost before = changes@;
        let eligible = !nodes[i].hidden && match nodes[i].selectable {
            Some(s) => s,
            None => true,
        };
        let node_box = Rect {
            x: internals[i].position_absolute.x,
            y: internals[i].position_absolute.y,
            width: internals[i].dimensions.width,
            height: internals[i].dimensions.height,
        };
        let hit = match mode {
            SelectionMode::Full => marquee.contains_rect(&node_box),
            SelectionMode::Partial => marquee.intersects(&node_box),
        };
        let target = (eligible && hit) || (additive && nodes[i].selected);
        proof {
            assert(node_box == internal_rect(internals@[i as int]));
            assert(target == marquee_target(
                nodes@[i as int],
                internals@[i as int],
                marquee,
                mode,
                additive,
            ));
        }
        if nodes[i].selected != target {
            changes.push(NodeChange::Selection { id: nodes[i].id.clone(), selected: target });
        }
        proof {
            let tail = marquee_changes_from(nodes@, internals@, marquee, mode, additive, i as int
                + 1);
            if nodes@[i as int].selected != target {
                let c = NodeChange::<N>::Selection { id: nodes@[i as int].id, selected: target };
                assert(changes@ =~= before + seq![c]);
                assert((before + seq![c]) + tail =~= before + (seq![c] + tail));
            } else {
                assert(before + (Seq::<NodeChange<N>>::empty() + tail) =~= before + tail);
            }
        }
        i = i + 1;
    }
    proof {
        assert(marquee_changes_from(nodes@, internals@, marquee, mode, additive, nodes@.len() as int)
            =~= Seq::<NodeChange<N>>::empty());
        assert(changes@ + Seq::<NodeChange<N>>::empty() =~= changes@);
    }
    changes
}

/// Law: a marquee exactly equal to a node's box selects it in both modes,
/// and the same marquee shrunk inward by any positive amount on each side no
/// longer selects it in `Full` mode yet still selects it in `Partial` mode.
pub proof fn lemma_marquee_exact_and_shrunk(node_box: Rect, shrunk: Rect, eps: int)
    requires
        eps >= 1,
        shrunk.x == node_box.x + eps,
        shrunk.y == node_box.y + eps,
        shrunk.width == node_box.width - 2 * eps,
        shrunk.height == node_box.height - 2 * eps,
        2 * eps < node_box.width,
        2 * eps < node_box.height,
    ensures
        marquee_hit(SelectionMode::Full, node_box, node_box),
        marquee_hit(SelectionMode::Partial, node_box, node_box),
        !marquee_hit(SelectionMode::Full, shrunk, node_box),
        marquee_hit(SelectionMode::Partial, shrunk, node_box),
{
}

} // verus!
