//! The drag-to-connect state machine: from idle through a pending press and
//! a drag to a committed connection or a cancel.

use vstd::prelude::*;
use crate::geometry::{Position, XYPosition};
use crate::handle::{clone_opt_string, HandleType};

verus! {

/// A finished connection, with `source` always the node whose handle is a
/// `Source`.
#[derive(PartialEq, Debug)]
pub struct Connection {
    pub source: String,
    pub target: String,
    pub source_handle: Option<String>,
    pub target_handle: Option<String>,
}

impl Connection {
    pub fn new(source: String, target: String) -> (r: Self)
        ensures
            r.source == source,
            r.target == target,
            r.source_handle is None,
            r.target_handle is None,
    {
        Connection { source, target, source_handle: None, target_handle: None }
    }

    pub fn with_handles(self, source_handle: Option<String>, target_handle: Option<String>) -> (r:
        Self)
        ensures
            r == (Connection { source_handle, target_handle, ..self }),
    {
        Connection { source_handle, target_handle, ..self }
    }
}

impl Clone for Connection {
    fn clone(&self) -> (r: Self)
        ensures
            r == *self,
    {
        Connection {
            source: self.source.clone(),
            target: self.target.clone(),
            source_handle: clone_opt_string(&self.source_handle),
            target_handle: clone_opt_string(&self.target_handle),
        }
    }
}

/// Whether only opposite handle types may connect (`Strict`) or any pair may
/// (`Loose`).
#[derive(Clone, Copy, PartialEq, Eq, Structural, Debug)]
pub enum ConnectionMode {
    Strict,
    Loose,
}

impl Default for ConnectionMode {
    fn default() -> (r: Self)
        ensures
            r == ConnectionMode::Strict,
    {
        ConnectionMode::Strict
    }
}

/// Path style of the in-progress connection line.
#[derive(Clone, Copy, PartialEq, Eq, Structural, Debug)]
pub enum ConnectionLineType {
    Bezier,
    SmoothStep,
    Step,
    Straight,
    SimpleBezier,
}

impl Default for ConnectionLineType {
    fn default() -> (r: Self)
        ensures
            r == ConnectionLineType::Bezier,
    {
        ConnectionLineType::Bezier
    }
}

/// Type compatibility of an origin and a candidate handle under a mode:
/// `Loose` accepts any pair, `Strict` only opposite types.
pub open spec fn connection_base_valid(
    mode: ConnectionMode,
    from_type: HandleType,
    to_type: HandleType,
) -> bool {
    mode == ConnectionMode::Loose || from_type != to_type
}

/// Law: in `Strict` mode a handle can never validate against another handle
/// of its own type, and validates exactly against the opposite type; in
/// `Loose` mode the types never disqualify a pair.
pub proof fn lemma_connection_mode_validity(from_type: HandleType, to_type: HandleType)
    ensures
        !connection_base_valid(ConnectionMode::Strict, from_type, from_type),
        connection_base_valid(ConnectionMode::Strict, from_type, to_type) <==> from_type
            != to_type,
        connection_base_valid(ConnectionMode::Loose, from_type, to_type),
{
}

/// The transient state of a connection drag.
#[derive(PartialEq, Debug)]
pub struct ConnectionState {
    /// A drag is under way.
    pub in_progress: bool,
    /// The originating node.
    pub from_node: Option<String>,
    /// The originating handle id.
    pub from_handle: Option<String>,
    /// The originating handle type.
    pub from_type: Option<HandleType>,
    /// The side of the node the drag started from.
    pub from_position: Option<Position>,
    /// The cursor or snapped target, in flow space.
    pub to_position: Option<XYPosition>,
    /// The cursor or snapped target, in screen space.
    pub to_position_screen: Option<XYPosition>,
    /// The candidate target node, when one is near.
    pub to_node: Option<String>,
    /// The candidate target handle id.
    pub to_handle: Option<String>,
    /// The candidate target handle type.
    pub to_type: Option<HandleType>,
    /// The edge being reconnected, when the drag moves an existing end.
    pub reconnect_edge_id: Option<String>,
    /// Which end of that edge is being moved.
    pub reconnect_end: Option<HandleType>,
    /// The candidate passes the mode check and any external check.
    pub is_valid: bool,
    /// The cursor has moved beyond the drag threshold.
    pub dragging: bool,
    /// The screen position of the initial press, for the threshold.
    pub start_screen: Option<XYPosition>,
}

/// The idle state: nothing in progress and every field absent.
pub open spec fn idle_connection_state() -> ConnectionState {
    ConnectionState {
        in_progress: false,
        from_node: None,
        from_handle: None,
        from_type: None,
        from_position: None,
        to_position: None,
        to_position_screen: None,
        to_node: None,
        to_handle: None,
        to_type: None,
        reconnect_edge_id: None,
        reconnect_end: None,
        is_valid: false,
        dragging: false,
        start_screen: None,
    }
}

/// The state seeded by a fresh press on a handle.
pub open spec fn started_connection_state(
    from_node: String,
    from_handle: Option<String>,
    from_type: HandleType,
    from_position: Position,
) -> ConnectionState {
    ConnectionState {
        in_progress: true,
        from_node: Some(from_node),
        from_handle,
        from_type: Some(from_type),
        from_position: Some(from_position),
        ..idle_connection_state()
    }
}

/// The connection a state describes, with the ends ordered so the `Source`
/// handle's node is the source — swapped when the drag began on a `Target`.
pub open spec fn to_connection_spec(s: ConnectionState) -> Option<Connection> {
    if s.from_node is Some && s.from_type is Some && s.to_node is Some {
        Some(
            match s.from_type->0 {
                HandleType::Source => Connection {
                    source: s.from_node->0,
                    target: s.to_node->0,
                    source_handle: s.from_handle,
                    target_handle: s.to_handle,
                },
                HandleType::Target => Connection {
                    source: s.to_node->0,
                    target: s.from_node->0,
                    source_handle: s.to_handle,
                    target_handle: s.from_handle,
                },
            },
        )
    } else {
        None
    }
}

impl ConnectionState {
    /// Seed a pending connection from a press on a handle.
    pub fn start(
        from_node: String,
        from_handle: Option<String>,
        from_type: HandleType,
        from_position: Position,
    ) -> (r: Self)
        ensures
            r == started_connection_state(from_node, from_handle, from_type, from_position),
    {
        ConnectionState {
            in_progress: true,
            from_node: Some(from_node),
            from_handle,
            from_type: Some(from_type),
            from_position: Some(from_position),
            to_position: None,
            to_position_screen: None,
            to_node: None,
            to_handle: None,
            to_type: None,
            reconnect_edge_id: None,
            reconnect_end: None,
            is_valid: false,
            dragging: false,
            start_screen: None,
        }
    }

    /// Seed a reconnect drag from an existing edge's end.
    pub fn start_reconnect(
        edge_id: String,
        reconnect_end: HandleType,
        from_node: String,
        from_handle: Option<String>,
        from_type: HandleType,
        from_position: Position,
    ) -> (r: Self)
        ensures
            r == (ConnectionState {
                reconnect_edge_id: Some(edge_id),
                reconnect_end: Some(reconnect_end),
                ..started_connection_state(from_node, from_handle, from_type, from_position)
            }),
    {
        ConnectionState {
            in_progress: true,
            from_node: Some(from_node),
            from_handle,
            from_type: Some(from_type),
            from_position: Some(from_position),
            to_position: None,
            to_position_screen: None,
            to_node: None,
            to_handle: None,
            to_type: None,
            reconnect_edge_id: Some(edge_id),
            reconnect_end: Some(reconnect_end),
            is_valid: false,
            dragging: false,
            start_screen: None,
        }
    }

    /// Track the cursor in flow space only.
    pub fn update_position(&mut self, position: XYPosition)
        ensures
            *final(self) == (ConnectionState { to_position: Some(position), ..*old(self) }),
    {
        self.to_position = Some(position);
    }

    /// Track the cursor in both coordinate spaces.
    pub fn update_screen_position(&mut self, screen: XYPosition, flow: XYPosition)
        ensures
            *final(self) == (ConnectionState {
                to_position_screen: Some(screen),
                to_position: Some(flow),
                ..*old(self)
            }),
    {
        self.to_position_screen = Some(screen);
        self.to_position = Some(flow);
    }

    /// Record a candidate target handle and its validity.
    pub fn set_target(
        &mut self,
        node_id: String,
        handle_id: Option<String>,
        handle_type: HandleType,
        is_valid: bool,
    )
        ensures
            *final(self) == (ConnectionState {
                to_node: Some(node_id),
                to_handle: handle_id,
                to_type: Some(handle_type),
                is_valid,
                ..*old(self)
            }),
    {
        self.to_node = Some(node_id);
        self.to_handle = handle_id;
        self.to_type = Some(handle_type);
        self.is_valid = is_valid;
    }

    /// Drop the candidate target; the cursor free-floats again.
    pub fn clear_target(&mut self)
        ensures
            *final(self) == (ConnectionState {
                to_node: None,
                to_handle: None,
                to_type: None,
                is_valid: false,
                ..*old(self)
            }),
    {
        self.to_node = None;
        self.to_handle = None;
        self.to_type = None;
        self.is_valid = false;
    }

    /// Return to idle.
    pub fn reset(&mut self)
        ensures
            *final(self) == idle_connection_state(),
    {
        *self = ConnectionState {
            in_progress: false,
            from_node: None,
            from_handle: None,
            from_type: None,
            from_position: None,
            to_position: None,
            to_position_screen: None,
            to_node: None,
            to_handle: None,
            to_type: None,
            reconnect_edge_id: None,
            reconnect_end: None,
            is_valid: false,
            dragging: false,
            start_screen: None,
        };
    }

    /// The connection this state describes, if it has both ends.
    pub fn to_connection(&self) -> (r: Option<Connection>)
        ensures
            r == to_connection_spec(*self),
    {
        if let (Some(from_node), Some(from_type)) = (&self.from_node, &self.from_type) {
            if let Some(to_node) = &self.to_node {
                let r = match from_type {
                    HandleType::Source => Connection {
                        source: from_node.clone(),
                        target: to_node.clone(),
                        source_handle: clone_opt_string(&self.from_handle),
                        target_handle: clone_opt_string(&self.to_handle),
                    },
                    HandleType::Target => Connection {
                        source: to_node.clone(),
                        target: from_node.clone(),
                        source_handle: clone_opt_string(&self.to_handle),
                        target_handle: clone_opt_string(&self.from_handle),
                    },
                };
                return Some(r);
            }
        }
        None
    }

    /// Finish the gesture: a valid in-progress target yields the connection,
    /// anything else yields nothing; either way the state returns to idle.
    pub fn end(&mut self) -> (r: Option<Connection>)
        ensures
            *final(self) == idle_connection_state(),
            r == if old(self).in_progress && old(self).is_valid {
                to_connection_spec(*old(self))
            } else {
                None::<Connection>
            },
    {
        if self.in_progress && self.is_valid {
            let connection = self.to_connection();
            self.reset();
            connection
        } else {
            self.reset();
            None
        }
    }
}

impl Default for ConnectionState {
    fn default() -> (r: Self)
        ensures
            r == idle_connection_state(),
    {
        ConnectionState {
            in_progress: false,
            from_node: None,
            from_handle: None,
            from_type: None,
            from_position: None,
            to_position: None,
            to_position_screen: None,
            to_node: None,
            to_handle: None,
            to_type: None,
            reconnect_edge_id: None,
            reconnect_end: None,
            is_valid: false,
            dragging: false,
            start_screen: None,
        }
    }
}

impl Clone for ConnectionState {
    fn clone(&self) -> (r: Self)
        ensures
            r == *self,
    {
        ConnectionState {
            in_progress: self.in_progress,
            from_node: clone_opt_string(&self.from_node),
            from_handle: clone_opt_string(&self.from_handle),
            from_type: self.from_type,
            from_position: self.from_position,
            to_position: self.to_position,
            to_position_screen: self.to_position_screen,
            to_node: clone_opt_string(&self.to_node),
            to_handle: clone_opt_string(&self.to_handle),
            to_type: self.to_type,
            reconnect_edge_id: clone_opt_string(&self.reconnect_edge_id),
            reconnect_end: self.reconnect_end,
            is_valid: self.is_valid,
            dragging: self.dragging,
            start_screen: self.start_screen,
        }
    }
}

/// The start-of-gesture event the host observes.
#[derive(PartialEq, Debug)]
pub struct ConnectionStartEvent {
    pub node_id: String,
    pub handle_id: Option<String>,
    pub handle_type: HandleType,
    pub position: Position,
}

/// The end-of-gesture event the host observes: the connection when one was
/// committed, and whether the final candidate was valid.
#[derive(PartialEq, Debug)]
pub struct ConnectionEndEvent {
    pub connection: Option<Connection>,
    pub is_valid: bool,
}

} // verus!
