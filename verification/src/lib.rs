//! Core state and geometry engine for an interactive node-link diagram editor.
//!
//! The crate tracks nodes, edges, the viewport, and in-progress user gestures
//! (node drag, drag-to-connect, marquee selection), and exposes a pure API for
//! querying and mutating that state.  All coordinates are integers: flow-space
//! positions are plain units, screen-space values carry a fixed sub-unit scale
//! equal to [`num::ZOOM_UNIT`], and a zoom of `ZOOM_UNIT` maps one flow unit to
//! `ZOOM_UNIT` screen units.  The host layer converts to and from its own
//! floating-point pixels.

pub mod num;
pub mod geometry;
pub mod handle;
pub mod node;
pub mod edge;
pub mod config;
pub mod change;
pub mod viewport;
pub mod connection;
pub mod graph;
pub mod selection;
pub mod edge_path;
pub mod store;

use vstd::prelude::*;

verus! {

} // verus!
