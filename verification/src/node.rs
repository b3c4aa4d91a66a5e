//! Nodes of the flow graph and their derived per-node state.

use vstd::prelude::*;
use crate::geometry::{Dimensions, Position, XYPosition};
use crate::handle::{bounds_view, clone_opt_bounds, clone_opt_string, HandleBounds};

verus! {

/// Fallback width when a node has neither explicit nor measured width.
pub const DEFAULT_NODE_WIDTH: i64 = 150;

/// Fallback height when a node has neither explicit nor measured height.
pub const DEFAULT_NODE_HEIGHT: i64 = 40;

/// A rectangular constraint on positions; `None` on a side means unbounded.
#[derive(Clone, Copy, PartialEq, Eq, Structural, Debug)]
pub struct CoordinateExtent {
    pub min_x: Option<i64>,
    pub min_y: Option<i64>,
    pub max_x: Option<i64>,
    pub max_y: Option<i64>,
}

impl CoordinateExtent {
    /// Extent with no bound on any side.
    pub fn unbounded() -> (r: Self)
        ensures
            r.min_x is None && r.min_y is None && r.max_x is None && r.max_y is None,
    {
        CoordinateExtent { min_x: None, min_y: None, max_x: None, max_y: None }
    }
}

/// Where a node may be placed: inside explicit coordinates, or inside its
/// parent node.
#[derive(Clone, Copy, PartialEq, Eq, Structural, Debug)]
pub enum NodeExtent {
    CoordinateExtent(CoordinateExtent),
    Parent,
}

impl Default for NodeExtent {
    fn default() -> (r: Self)
        ensures
            r == NodeExtent::CoordinateExtent(CoordinateExtent {
                min_x: None,
                min_y: None,
                max_x: None,
                max_y: None,
            }),
    {
        NodeExtent::CoordinateExtent(CoordinateExtent {
            min_x: None,
            min_y: None,
            max_x: None,
            max_y: None,
        })
    }
}

/// A node: identity, flow-space position, flags, and layout inputs.
#[derive(PartialEq, Debug)]
pub struct Node<T> {
    pub id: String,
    pub position: XYPosition,
    pub data: T,
    pub node_type: Option<String>,
    pub style: Option<String>,
    pub class_name: Option<String>,
    pub draggable: Option<bool>,
    pub drag_handle: Option<String>,
    pub selectable: Option<bool>,
    pub connectable: Option<bool>,
    pub focusable: Option<bool>,
    pub deletable: Option<bool>,
    pub hidden: bool,
    pub selected: bool,
    pub dragging: bool,
    pub resizing: bool,
    pub width: Option<i64>,
    pub height: Option<i64>,
    pub measured_width: Option<i64>,
    pub measured_height: Option<i64>,
    pub z_index: Option<i32>,
    pub parent_id: Option<String>,
    pub expand_parent: bool,
    pub extent: Option<NodeExtent>,
    pub source_position: Option<Position>,
    pub target_position: Option<Position>,
    pub aria_label: Option<String>,
}

/// The resolved size of a node: explicit size first, then the measured size,
/// then the default.
pub open spec fn node_dimensions_spec<T>(node: Node<T>) -> Dimensions {
    Dimensions {
        width: match node.width {
            Some(w) => w,
            None => match node.measured_width {
                Some(w) => w,
                None => DEFAULT_NODE_WIDTH,
            },
        },
        height: match node.height {
            Some(h) => h,
            None => match node.measured_height {
                Some(h) => h,
                None => DEFAULT_NODE_HEIGHT,
            },
        },
    }
}

impl<T> Node<T> {
    /// A fresh node at the given position; every optional input is absent and
    /// every flag is off.
    pub fn new(id: String, position: XYPosition) -> (r: Self) where T: Default
        ensures
            r.id == id,
            r.position == position,
            r.node_type is None,
            r.style is None,
            r.class_name is None,
            r.draggable is None,
            r.drag_handle is None,
            r.selectable is None,
            r.connectable is None,
            r.focusable is None,
            r.deletable is None,
            !r.hidden && !r.selected && !r.dragging && !r.resizing,
            r.width is None && r.height is None,
            r.measured_width is None && r.measured_height is None,
            r.z_index is None,
            r.parent_id is None,
            !r.expand_parent,
            r.extent is None,
            r.source_position is None,
            r.target_position is None,
            r.aria_label is None,
    {
        Node {
            id,
            position,
            data: T::default(),
            node_type: None,
            style: None,
            class_name: None,
            draggable: None,
            drag_handle: None,
            selectable: None,
            connectable: None,
            focusable: None,
            deletable: None,
            hidden: false,
            selected: false,
            dragging: false,
            resizing: false,
            width: None,
            height: None,
            measured_width: None,
            measured_height: None,
            z_index: None,
            parent_id: None,
            expand_parent: false,
            extent: None,
            source_position: None,
            target_position: None,
            aria_label: None,
        }
    }

    pub fn with_data(self, data: T) -> (r: Self)
        ensures
            r == (Node { data, ..self }),
    {
        Node { data, ..self }
    }

    pub fn with_type(self, node_type: String) -> (r: Self)
        ensures
            r == (Node { node_type: Some(node_type), ..self }),
    {
        Node { node_type: Some(node_type), ..self }
    }

    pub fn with_style(self, style: String) -> (r: Self)
        ensures
            r == (Node { style: Some(style), ..self }),
    {
        Node { style: Some(style), ..self }
    }

    pub fn with_class(self, class_name: String) -> (r: Self)
        ensures
            r == (Node { class_name: Some(class_name), ..self }),
    {
        Node { class_name: Some(class_name), ..self }
    }

    pub fn with_dimensions(self, width: i64, height: i64) -> (r: Self)
        ensures
            r == (Node { width: Some(width), height: Some(height), ..self }),
    {
        Node { width: Some(width), height: Some(height), ..self }
    }

    /// Resolved size: explicit, else measured, else the default.
    pub fn get_dimensions(&self) -> (r: Dimensions)
        ensures
            r == node_dimensions_spec(*self),
    {
        let width: i64 = match self.width {
            Some(w) => w,
            None => match self.measured_width {
                Some(w) => w,
                None => DEFAULT_NODE_WIDTH,
            },
        };
        let height: i64 = match self.height {
            Some(h) => h,
            None => match self.measured_height {
                Some(h) => h,
                None => DEFAULT_NODE_HEIGHT,
            },
        };
        Dimensions { width, height }
    }
}

impl<T: Clone> Clone for Node<T> {
    /// Exact copy in every field but the payload, whose clone follows `T`.
    fn clone(&self) -> (r: Self)
        ensures
            r == (Node { data: r.data, ..*self }),
            cloned::<T>(self.data, r.data),
    {
        Node {
            id: self.id.clone(),
            position: self.position,
            data: self.data.clone(),
            node_type: clone_opt_string(&self.node_type),
            style: clone_opt_string(&self.style),
            class_name: clone_opt_string(&self.class_name),
            draggable: self.draggable,
            drag_handle: clone_opt_string(&self.drag_handle),
            selectable: self.selectable,
            connectable: self.connectable,
            focusable: self.focusable,
            deletable: self.deletable,
            hidden: self.hidden,
            selected: self.selected,
            dragging: self.dragging,
            resizing: self.resizing,
            width: self.width,
            height: self.height,
            measured_width: self.measured_width,
            measured_height: self.measured_height,
            z_index: self.z_index,
            parent_id: clone_opt_string(&self.parent_id),
            expand_parent: self.expand_parent,
            extent: self.extent,
            source_position: self.source_position,
            target_position: self.target_position,
            aria_label: clone_opt_string(&self.aria_label),
        }
    }
}

/// Derived state of one node: its absolute position resolved through the
/// parent chain, its resolved size, and the measured handle boxes.  The entry
/// at index `i` belongs to the node at index `i` of the node list and carries
/// that node's id, so measured geometry survives a list replacement.
#[derive(PartialEq, Debug)]
pub struct InternalNode {
    pub id: String,
    pub position_absolute: XYPosition,
    pub dimensions: Dimensions,
    pub handle_bounds: Option<HandleBounds>,
}

impl Clone for InternalNode {
    fn clone(&self) -> (r: Self)
        ensures
            r.id == self.id,
            r.position_absolute == self.position_absolute,
            r.dimensions == self.dimensions,
            bounds_view(r.handle_bounds) == bounds_view(self.handle_bounds),
    {
        InternalNode {
            id: self.id.clone(),
            position_absolute: self.position_absolute,
            dimensions: self.dimensions,
            handle_bounds: clone_opt_bounds(&self.handle_bounds),
        }
    }
}

} // verus!
