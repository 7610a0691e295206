//! Finding the portal of a room, where a portal transition places the player.
use vstd::prelude::*;

use crate::entity::{EntityKind, RoomEntity};
use crate::geometry::Vec2;

verus! {

/// Whether `i` is the index of the first portal among `entities`.
pub open spec fn is_first_portal(entities: Seq<RoomEntity>, i: int) -> bool {
    &&& 0 <= i < entities.len()
    &&& entities[i].kind is Portal
    &&& forall|j: int| 0 <= j < i ==> !(#[trigger] entities[j].kind is Portal)
}

/// Whether no entity is a portal.
pub open spec fn has_no_portal(entities: Seq<RoomEntity>) -> bool {
    forall|j: int| 0 <= j < entities.len() ==> !(#[trigger] entities[j].kind is Portal)
}

/// Find the first portal in a room's entity layer.
pub fn find_portal_in_room(entities: &Vec<RoomEntity>) -> (r: Option<usize>)
    ensures
        r matches Some(i) ==> is_first_portal(entities@, i as int),
        r is None <==> has_no_portal(entities@),
{
    let mut i: usize = 0;
    while i < entities.len()
        invariant
            0 <= i <= entities@.len(),
            forall|j: int| 0 <= j < i ==> !(#[trigger] entities@[j].kind is Portal),
        decreases entities@.len() - i,
    {
        if let EntityKind::Portal = entities[i].kind {
            return Some(i);
        }
        i = i + 1;
    }
    None
}

/// The position of the first portal among `entities`, or `default_position`
/// when there is none.
pub open spec fn first_portal_position(entities: Seq<RoomEntity>, default_position: Vec2) -> Vec2
    decreases entities.len(),
{
    if entities.len() == 0 {
        default_position
    } else if entities[0].kind is Portal {
        entities[0].position
    } else {
        first_portal_position(entities.drop_first(), default_position)
    }
}

/// Where a portal transition places the player in the new room: at its first
/// portal, or at `default_position` when it has none.
pub fn portal_spawn_position(entities: &Vec<RoomEntity>, default_position: Vec2) -> (r: Vec2)
    ensures
        r == first_portal_position(entities@, default_position),
{
    let mut i: usize = 0;
    proof {
        assert(entities@.subrange(0, entities@.len() as int) =~= entities@);
    }
    while i < entities.len()
        invariant
            0 <= i <= entities@.len(),
            first_portal_position(entities@.subrange(i as int, entities@.len() as int), default_position)
                == first_portal_position(entities@, default_position),
        decreases entities@.len() - i,
    {
        let ghost rest = entities@.subrange(i as int, entities@.len() as int);
        if let EntityKind::Portal = entities[i].kind {
            return entities[i].position;
        }
        proof {
            assert(rest.drop_first() =~= entities@.subrange(i + 1, entities@.len() as int));
        }
        i = i + 1;
    }
    proof {
        assert(entities@.subrange(i as int, entities@.len() as int).len() == 0);
    }
    default_position
}

} // verus!
