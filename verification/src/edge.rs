//! Edges of the flow graph and the structured result of path generation.

use vstd::prelude::*;
use crate::handle::clone_opt_string;

verus! {

/// Which ends of an edge may be dragged to a new handle.
#[derive(Clone, Copy, PartialEq, Eq, Structural, Debug)]
pub enum ReconnectableValue {
    True,
    False,
    Source,
    Target,
}

impl Default for ReconnectableValue {
    fn default() -> (r: Self)
        ensures
            r == ReconnectableValue::True,
    {
        ReconnectableValue::True
    }
}

/// Shape of an edge-end marker.
#[derive(Clone, Copy, PartialEq, Eq, Structural, Debug)]
pub enum MarkerType {
    Arrow,
    ArrowClosed,
}

impl Default for MarkerType {
    fn default() -> (r: Self)
        ensures
            r == MarkerType::Arrow,
    {
        MarkerType::Arrow
    }
}

/// Marker configuration at one end of an edge.
#[derive(PartialEq, Debug)]
pub struct EdgeMarker {
    pub marker_type: MarkerType,
    pub color: Option<String>,
    pub width: Option<i64>,
    pub height: Option<i64>,
    pub marker_units: Option<String>,
    pub orient: Option<String>,
    pub stroke_width: Option<i64>,
}

impl EdgeMarker {
    pub fn arrow() -> (r: Self)
        ensures
            r.marker_type == MarkerType::Arrow,
            r.color is None && r.width is None && r.height is None,
            r.marker_units is None && r.orient is None && r.stroke_width is None,
    {
        EdgeMarker {
            marker_type: MarkerType::Arrow,
            color: None,
            width: None,
            height: None,
            marker_units: None,
            orient: None,
            stroke_width: None,
        }
    }

    pub fn arrow_closed() -> (r: Self)
        ensures
            r.marker_type == MarkerType::ArrowClosed,
            r.color is None && r.width is None && r.height is None,
            r.marker_units is None && r.orient is None && r.stroke_width is None,
    {
        EdgeMarker {
            marker_type: MarkerType::ArrowClosed,
            color: None,
            width: None,
            height: None,
            marker_units: None,
            orient: None,
            stroke_width: None,
        }
    }

    pub fn with_color(self, color: String) -> (r: Self)
        ensures
            r == (EdgeMarker { color: Some(color), ..self }),
    {
        EdgeMarker { color: Some(color), ..self }
    }
}

impl Clone for EdgeMarker {
    fn clone(&self) -> (r: Self)
        ensures
            r == *self,
    {
        EdgeMarker {
            marker_type: self.marker_type,
            color: clone_opt_string(&self.color),
            width: self.width,
            height: self.height,
            marker_units: clone_opt_string(&self.marker_units),
            orient: clone_opt_string(&self.orient),
            stroke_width: self.stroke_width,
        }
    }
}

/// Exact copy of an optional marker.
pub fn clone_opt_marker(m: &Option<EdgeMarker>) -> (r: Option<EdgeMarker>)
    ensures
        r == *m,
{
    match m {
        Some(v) => Some(v.clone()),
        None => None,
    }
}

/// An edge: identity, its two endpoint node ids, optional handle ids, flags,
/// and label and marker styling.
#[derive(PartialEq, Debug)]
pub struct Edge<T> {
    pub id: String,
    pub source: String,
    pub target: String,
    pub source_handle: Option<String>,
    pub target_handle: Option<String>,
    pub data: Option<T>,
    pub edge_type: Option<String>,
    pub animated: bool,
    pub selected: bool,
    pub selectable: Option<bool>,
    pub deletable: Option<bool>,
    pub focusable: Option<bool>,
    pub hidden: bool,
    pub reconnectable: Option<ReconnectableValue>,
    pub z_index: Option<i32>,
    pub label: Option<String>,
    pub label_style: Option<String>,
    pub label_show_bg: Option<bool>,
    pub label_bg_style: Option<String>,
    pub label_bg_padding: Option<(i64, i64)>,
    pub label_bg_border_radius: Option<i64>,
    pub style: Option<String>,
    pub class_name: Option<String>,
    pub marker_start: Option<EdgeMarker>,
    pub marker_end: Option<EdgeMarker>,
    pub interaction_width: Option<i64>,
}

impl<T> Edge<T> {
    /// A fresh edge between two nodes; every optional input is absent and
    /// every flag is off.
    pub fn new(id: String, source: String, target: String) -> (r: Self)
        ensures
            r.id == id,
            r.source == source,
            r.target == target,
            r.source_handle is None && r.target_handle is None,
            r.data is None,
            r.edge_type is None,
            !r.animated && !r.selected && !r.hidden,
            r.selectable is None && r.deletable is None && r.focusable is None,
            r.reconnectable is None,
            r.z_index is None,
            r.label is None && r.label_style is None && r.label_show_bg is None,
            r.label_bg_style is None && r.label_bg_padding is None,
            r.label_bg_border_radius is None,
            r.style is None && r.class_name is None,
            r.marker_start is None && r.marker_end is None,
            r.interaction_width is None,
    {
        Edge {
            id,
            source,
            target,
            source_handle: None,
            target_handle: None,
            data: None,
            edge_type: None,
            animated: false,
            selected: false,
            selectable: None,
            deletable: None,
            focusable: None,
            hidden: false,
            reconnectable: None,
            z_index: None,
            label: None,
            label_style: None,
            label_show_bg: None,
            label_bg_style: None,
            label_bg_padding: None,
            label_bg_border_radius: None,
            style: None,
            class_name: None,
            marker_start: None,
            marker_end: None,
            interaction_width: None,
        }
    }

    pub fn with_source_handle(self, handle: String) -> (r: Self)
        ensures
            r == (Edge { source_handle: Some(handle), ..self }),
    {
        Edge { source_handle: Some(handle), ..self }
    }

    pub fn with_target_handle(self, handle: String) -> (r: Self)
        ensures
            r == (Edge { target_handle: Some(handle), ..self }),
    {
        Edge { target_handle: Some(handle), ..self }
    }

    pub fn with_type(self, edge_type: String) -> (r: Self)
        ensures
            r == (Edge { edge_type: Some(edge_type), ..self }),
    {
        Edge { edge_type: Some(edge_type), ..self }
    }

    pub fn with_label(self, label: String) -> (r: Self)
        ensures
            r == (Edge { label: Some(label), ..self }),
    {
        Edge { label: Some(label), ..self }
    }

    pub fn with_animated(self, animated: bool) -> (r: Self)
        ensures
            r == (Edge { animated, ..self }),
    {
        Edge { animated, ..self }
    }

    pub fn with_style(self, style: String) -> (r: Self)
        ensures
            r == (Edge { style: Some(style), ..self }),
    {
        Edge { style: Some(style), ..self }
    }

    pub fn with_data(self, data: T) -> (r: Self)
        ensures
            r == (Edge { data: Some(data), ..self }),
    {
        Edge { data: Some(data), ..self }
    }
}

impl<T: Clone> Clone for Edge<T> {
    /// Exact copy in every field but the payload, whose clone follows `T`.
    fn clone(&self) -> (r: Self)
        ensures
            r == (Edge { data: r.data, ..*self }),
            r.data is Some <==> self.data is Some,
    {
        Edge {
            id: self.id.clone(),
            source: self.source.clone(),
            target: self.target.clone(),
            source_handle: clone_opt_string(&self.source_handle),
            target_handle: clone_opt_string(&self.target_handle),
            data: match &self.data {
                Some(d) => Some(d.clone()),
                None => None,
            },
            edge_type: clone_opt_string(&self.edge_type),
            animated: self.animated,
            selected: self.selected,
            selectable: self.selectable,
            deletable: self.deletable,
            focusable: self.focusable,
            hidden: self.hidden,
            reconnectable: self.reconnectable,
            z_index: self.z_index,
            label: clone_opt_string(&self.label),
            label_style: clone_opt_string(&self.label_style),
            label_show_bg: self.label_show_bg,
            label_bg_style: clone_opt_string(&self.label_bg_style),
            label_bg_padding: self.label_bg_padding,
            label_bg_border_radius: self.label_bg_border_radius,
            style: clone_opt_string(&self.style),
            class_name: clone_opt_string(&self.class_name),
            marker_start: clone_opt_marker(&self.marker_start),
            marker_end: clone_opt_marker(&self.marker_end),
            interaction_width: self.interaction_width,
        }
    }
}

/// One drawing command of an edge path, in flow-space coordinates.
#[derive(Clone, Copy, PartialEq, Eq, Structural, Debug)]
pub enum PathCommand {
    /// Move the pen without drawing.
    MoveTo { x: i64, y: i64 },
    /// Straight segment to the point.
    LineTo { x: i64, y: i64 },
    /// Cubic curve through two control points.
    CubicTo { c1x: i64, c1y: i64, c2x: i64, c2y: i64, x: i64, y: i64 },
    /// Quadratic curve through one control point.
    QuadTo { cx: i64, cy: i64, x: i64, y: i64 },
}

/// Inputs accepted by the path generators.
#[derive(Clone, Copy, PartialEq, Eq, Structural, Debug)]
pub struct EdgePathOptions {
    /// Curvature of a bezier edge, in per-mille of the control distance.
    pub curvature: Option<i64>,
    /// Corner radius of a smooth-step edge.
    pub border_radius: Option<i64>,
    /// Gap between a handle and the first bend of a step edge.
    pub offset: Option<i64>,
}

impl Default for EdgePathOptions {
    fn default() -> (r: Self)
        ensures
            r.curvature is None && r.border_radius is None && r.offset is None,
    {
        EdgePathOptions { curvature: None, border_radius: None, offset: None }
    }
}

/// A generated edge path with its label anchor and the label's distance from
/// the source point.
#[derive(PartialEq, Debug)]
pub struct EdgePathResult {
    pub path: Vec<PathCommand>,
    pub label_x: i64,
    pub label_y: i64,
    pub offset_x: i64,
    pub offset_y: i64,
}

impl View for EdgePathResult {
    type V = (Seq<PathCommand>, int, int, int, int);

    open spec fn view(&self) -> Self::V {
        (self.path@, self.label_x as int, self.label_y as int, self.offset_x as int,
        self.offset_y as int)
    }
}

} // verus!
