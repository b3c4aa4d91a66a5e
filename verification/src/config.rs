//! Configuration enums, accessibility labels, and the error channel.

use vstd::prelude::*;
use crate::handle::clone_opt_string;

verus! {

/// Color scheme applied by the host.
#[derive(Clone, Copy, PartialEq, Eq, Structural, Debug)]
pub enum ColorMode {
    Light,
    Dark,
    System,
}

impl Default for ColorMode {
    fn default() -> (r: Self)
        ensures
            r == ColorMode::Light,
    {
        ColorMode::Light
    }
}

/// How z-indices are assigned to nodes and edges.
#[derive(Clone, Copy, PartialEq, Eq, Structural, Debug)]
pub enum ZIndexMode {
    Basic,
    Auto,
    Manual,
}

impl Default for ZIndexMode {
    fn default() -> (r: Self)
        ensures
            r == ZIndexMode::Basic,
    {
        ZIndexMode::Basic
    }
}

/// Whether panning on scroll moves freely or along one axis.
#[derive(Clone, Copy, PartialEq, Eq, Structural, Debug)]
pub enum PanOnScrollMode {
    Free,
    Horizontal,
    Vertical,
}

impl Default for PanOnScrollMode {
    fn default() -> (r: Self)
        ensures
            r == PanOnScrollMode::Free,
    {
        PanOnScrollMode::Free
    }
}

/// Labels the host reads for accessibility text.
#[derive(PartialEq, Debug)]
pub struct AriaLabelConfig {
    pub controls_zoom_in: Option<String>,
    pub controls_zoom_out: Option<String>,
    pub controls_fit_view: Option<String>,
    pub minimap: Option<String>,
    pub attribution: Option<String>,
    pub edge: Option<String>,
    pub node: Option<String>,
}

impl Default for AriaLabelConfig {
    fn default() -> (r: Self)
        ensures
            r.controls_zoom_in is None,
            r.controls_zoom_out is None,
            r.controls_fit_view is None,
            r.minimap is None,
            r.attribution is None,
            r.edge is None,
            r.node is None,
    {
        AriaLabelConfig {
            controls_zoom_in: None,
            controls_zoom_out: None,
            controls_fit_view: None,
            minimap: None,
            attribution: None,
            edge: None,
            node: None,
        }
    }
}

impl Clone for AriaLabelConfig {
    fn clone(&self) -> (r: Self)
        ensures
            r == *self,
    {
        AriaLabelConfig {
            controls_zoom_in: clone_opt_string(&self.controls_zoom_in),
            controls_zoom_out: clone_opt_string(&self.controls_zoom_out),
            controls_fit_view: clone_opt_string(&self.controls_fit_view),
            minimap: clone_opt_string(&self.minimap),
            attribution: clone_opt_string(&self.attribution),
            edge: clone_opt_string(&self.edge),
            node: clone_opt_string(&self.node),
        }
    }
}

/// Commercial display options.
#[derive(Clone, Copy, PartialEq, Eq, Structural, Debug)]
pub struct ProOptions {
    pub hide_attribution: bool,
}

impl Default for ProOptions {
    fn default() -> (r: Self)
        ensures
            r.hide_attribution == false,
    {
        ProOptions { hide_attribution: false }
    }
}

/// A recoverable fault, reported through the error channel and carried by id
/// rather than by message text.
#[derive(PartialEq, Debug)]
pub enum FlowError {
    /// A node's parent chain reaches the node itself; its absolute position
    /// fell back to its local position.
    ParentCycle { node_id: String },
}

impl Clone for FlowError {
    fn clone(&self) -> (r: Self)
        ensures
            r == *self,
    {
        match self {
            FlowError::ParentCycle { node_id } => FlowError::ParentCycle {
                node_id: node_id.clone(),
            },
        }
    }
}

} // verus!
