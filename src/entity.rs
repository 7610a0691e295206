//! Placed entities of a room, classified once when the room is loaded.
use vstd::prelude::*;

use crate::geometry::Vec2;

verus! {

/// The kinds of placed entity that the core tells apart.
#[derive(Clone, Copy, Debug, PartialEq, Eq, Structural)]
pub enum EntityKind {
    Key,
    Lock,
    Checkpoint,
    Star,
    Portal,
    Other,
}

/// One entity of a room's entity layer: its kind and where it stands.
#[derive(Clone, Copy, Debug)]
pub struct RoomEntity {
    pub kind: EntityKind,
    pub position: Vec2,
}

impl RoomEntity {
    pub fn new(kind: EntityKind, position: Vec2) -> (r: RoomEntity)
        ensures
            r.kind == kind,
            r.position == position,
    {
        RoomEntity { kind, position }
    }
}

} // verus!
