//! Handles: the anchor points on a node where edges start and end.

use vstd::prelude::*;
use crate::geometry::Position;
use crate::num::coord_ok;

verus! {

/// Whether a handle emits edges (`Source`) or receives them (`Target`).
#[derive(Clone, Copy, PartialEq, Eq, Structural, Hash, Debug)]
pub enum HandleType {
    Source,
    Target,
}

impl HandleType {
    pub fn opposite(&self) -> (r: Self)
        ensures
            r == match *self {
                HandleType::Source => HandleType::Target,
                HandleType::Target => HandleType::Source,
            },
    {
        match self {
            HandleType::Source => HandleType::Target,
            HandleType::Target => HandleType::Source,
        }
    }
}

impl Default for HandleType {
    fn default() -> (r: Self)
        ensures
            r == HandleType::Source,
    {
        HandleType::Source
    }
}

/// A handle declared on a node, with its measured box relative to the node.
#[derive(PartialEq, Debug)]
pub struct Handle {
    pub id: Option<String>,
    pub position: Position,
    pub handle_type: HandleType,
    pub node_id: String,
    pub x: i64,
    pub y: i64,
    pub width: i64,
    pub height: i64,
}

impl Handle {
    pub fn new(node_id: String, handle_type: HandleType, position: Position) -> (r: Self)
        ensures
            r.id is None,
            r.position == position,
            r.handle_type == handle_type,
            r.node_id == node_id,
            r.x == 0 && r.y == 0,
            r.width == 8 && r.height == 8,
    {
        Handle { id: None, position, handle_type, node_id, x: 0, y: 0, width: 8, height: 8 }
    }

    pub fn with_id(self, id: String) -> (r: Self)
        ensures
            r == (Handle { id: Some(id), ..self }),
    {
        Handle { id: Some(id), ..self }
    }

    /// Center point of the handle box, relative to the node.
    pub fn center(&self) -> (r: (i64, i64))
        requires
            coord_ok(self.x as int),
            coord_ok(self.y as int),
            coord_ok(self.width as int),
            coord_ok(self.height as int),
        ensures
            r.0 == self.x + self.width as int / 2,
            r.1 == self.y + self.height as int / 2,
    {
        (
            self.x + crate::num::div_floor(self.width, 2),
            self.y + crate::num::div_floor(self.height, 2),
        )
    }
}

/// Measured box of one handle, as reported by the host's layout pass.
#[derive(PartialEq, Debug)]
pub struct HandleBound {
    pub id: Option<String>,
    pub position: Position,
    pub x: i64,
    pub y: i64,
    pub width: i64,
    pub height: i64,
    pub is_connectable: bool,
}

impl Clone for HandleBound {
    fn clone(&self) -> (r: Self)
        ensures
            r == *self,
    {
        HandleBound {
            id: clone_opt_string(&self.id),
            position: self.position,
            x: self.x,
            y: self.y,
            width: self.width,
            height: self.height,
            is_connectable: self.is_connectable,
        }
    }
}

/// All measured handle boxes of one node, grouped by handle type.
#[derive(PartialEq, Debug)]
pub struct HandleBounds {
    pub source: Vec<HandleBound>,
    pub target: Vec<HandleBound>,
}

impl View for HandleBounds {
    type V = (Seq<HandleBound>, Seq<HandleBound>);

    open spec fn view(&self) -> Self::V {
        (self.source@, self.target@)
    }
}

impl Clone for HandleBounds {
    fn clone(&self) -> (r: Self)
        ensures
            r@ == self@,
    {
        let r = HandleBounds { source: clone_handle_vec(&self.source), target: clone_handle_vec(
            &self.target,
        ) };
        proof {
            assert(r@ == self@);
        }
        r
    }
}

/// View of an optional set of handle bounds, for contracts.
pub open spec fn bounds_view(b: Option<HandleBounds>) -> Option<
    (Seq<HandleBound>, Seq<HandleBound>),
> {
    match b {
        Some(hb) => Some(hb@),
        None => None,
    }
}

/// Exact copy (up to view) of an optional set of handle bounds.
pub fn clone_opt_bounds(b: &Option<HandleBounds>) -> (r: Option<HandleBounds>)
    ensures
        bounds_view(r) == bounds_view(*b),
{
    match b {
        Some(hb) => Some(hb.clone()),
        None => None,
    }
}

impl Default for HandleBounds {
    fn default() -> (r: Self)
        ensures
            r.source@ =~= Seq::<HandleBound>::empty(),
            r.target@ =~= Seq::<HandleBound>::empty(),
    {
        HandleBounds { source: Vec::new(), target: Vec::new() }
    }
}

/// Exact copy of an optional id.
pub fn clone_opt_string(s: &Option<String>) -> (r: Option<String>)
    ensures
        r == *s,
{
    match s {
        Some(v) => Some(v.clone()),
        None => None,
    }
}

/// Exact copy of a list of handle boxes.
pub fn clone_handle_vec(v: &Vec<HandleBound>) -> (r: Vec<HandleBound>)
    ensures
        r@ =~= v@,
{
    let mut out: Vec<HandleBound> = Vec::new();
    let mut i: usize = 0;
    while i < v.len()
        invariant
            i <= v.len(),
            out@ =~= v@.subrange(0, i as int),
        decreases v.len() - i,
    {
        out.push(v[i].clone());
        proof {
            assert(out@ =~= v@.subrange(0, i as int + 1));
        }
        i = i + 1;
    }
    proof {
        assert(v@.subrange(0, v@.len() as int) =~= v@);
    }
    out
}

/// Measured box of a handle element, used when the host reports geometry.
#[derive(PartialEq, Debug)]
pub struct HandleElement {
    pub id: Option<String>,
    pub position: Position,
    pub x: i64,
    pub y: i64,
    pub width: i64,
    pub height: i64,
}

} // verus!
