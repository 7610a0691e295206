//! Which rooms of the world grid the player has visited.
use vstd::prelude::*;

use crate::geometry::RoomId;

verus! {

/// The set of explored rooms, kept as a list without repeats.
pub struct ExplorationStore {
    explored_rooms: Vec<RoomId>,
}

impl View for ExplorationStore {
    type V = Set<RoomId>;

    closed spec fn view(&self) -> Set<RoomId> {
        self.explored_rooms@.to_set()
    }
}

impl ExplorationStore {
    /// No room is listed twice.
    pub closed spec fn wf(&self) -> bool {
        self.explored_rooms@.no_duplicates()
    }

    pub fn new() -> (r: Self)
        ensures
            r.wf(),
            r@ == Set::<RoomId>::empty(),
    {
        let r = ExplorationStore { explored_rooms: Vec::new() };
        proof {
            assert(r.explored_rooms@.to_set() =~= Set::<RoomId>::empty());
        }
        r
    }
}

/// Check if a room has been explored.
pub fn is_room_explored(store: &ExplorationStore, room: RoomId) -> (r: bool)
    ensures
        r == store@.contains(room),
{
    let mut i: usize = 0;
    while i < store.explored_rooms.len()
        invariant
            0 <= i <= store.explored_rooms@.len(),
            forall|j: int| 0 <= j < i ==> store.explored_rooms@[j] != room,
        decreases store.explored_rooms@.len() - i,
    {
        let entry = store.explored_rooms[i];
        if entry.0 == room.0 && entry.1 == room.1 {
            return true;
        }
        i = i + 1;
    }
    false
}

/// Mark a room as explored; true when it was not explored before.
pub fn mark_room_explored(store: &mut ExplorationStore, room: RoomId) -> (r: bool)
    requires
        old(store).wf(),
    ensures
        final(store).wf(),
        r == !old(store)@.contains(room),
        final(store)@ == old(store)@.insert(room),
{
    if is_room_explored(store, room) {
        proof {
            assert(store@.insert(room) =~= store@);
        }
        false
    } else {
        let ghost before = store.explored_rooms@;
        store.explored_rooms.push(room);
        proof {
            assert(store.explored_rooms@ == before.push(room));
            before.lemma_push_to_set_commute(room);
        }
        true
    }
}

/// The explored rooms, each once, in no particular order.
pub fn list_explored_rooms(store: &ExplorationStore) -> (r: Vec<RoomId>)
    requires
        store.wf(),
    ensures
        r@.no_duplicates(),
        r@.to_set() == store@,
{
    let mut out: Vec<RoomId> = Vec::new();
    let mut i: usize = 0;
    while i < store.explored_rooms.len()
        invariant
            0 <= i <= store.explored_rooms@.len(),
            out@ == store.explored_rooms@.subrange(0, i as int),
        decreases store.explored_rooms@.len() - i,
    {
        out.push(store.explored_rooms[i]);
        i = i + 1;
        proof {
            assert(out@ =~= store.explored_rooms@.subrange(0, i as int));
        }
    }
    proof {
        assert(out@ =~= store.explored_rooms@);
    }
    out
}

/// Forget every explored room (for a new game).
pub fn reset(store: &mut ExplorationStore)
    ensures
        final(store).wf(),
        final(store)@ == Set::<RoomId>::empty(),
{
    store.explored_rooms = Vec::new();
    proof {
        assert(store.explored_rooms@.to_set() =~= Set::<RoomId>::empty());
    }
}

} // verus!
