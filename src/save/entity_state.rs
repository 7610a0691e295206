//! Persistent state of placed entities: collected keys and stars, unlocked locks.
//!
//! An entity is known by the room it stands in and the whole pixel of its
//! position, so that its state survives the room being unloaded and loaded again.
use vstd::prelude::*;

use crate::geometry::{floor_pixel, pixel_floor, RoomId, Vec2};

verus! {

/// Identity of a placed entity: (room x, room y, pixel x, pixel y).
pub type EntityId = (i32, i32, i32, i32);

/// The identity that an entity at `position` in `room` is known by.
pub open spec fn entity_id_of(room: RoomId, position: Vec2) -> EntityId {
    (room.0, room.1, floor_pixel(position.x) as i32, floor_pixel(position.y) as i32)
}

/// Create an EntityId from room coordinates and position.
pub fn make_entity_id(room: RoomId, position: Vec2) -> (r: EntityId)
    ensures
        r == entity_id_of(room, position),
{
    (room.0, room.1, pixel_floor(position.x), pixel_floor(position.y))
}

/// A set of entity identities, kept as a list without repeats.
pub struct EntitySet {
    ids: Vec<EntityId>,
}

impl View for EntitySet {
    type V = Set<EntityId>;

    closed spec fn view(&self) -> Set<EntityId> {
        self.ids@.to_set()
    }
}

impl EntitySet {
    /// No identity is listed twice.
    pub closed spec fn wf(&self) -> bool {
        self.ids@.no_duplicates()
    }

    pub fn new() -> (r: Self)
        ensures
            r.wf(),
            r@ == Set::<EntityId>::empty(),
    {
        let r = EntitySet { ids: Vec::new() };
        proof {
            assert(r.ids@.to_set() =~= Set::<EntityId>::empty());
        }
        r
    }

    pub fn contains(&self, id: EntityId) -> (r: bool)
        ensures
            r == self@.contains(id),
    {
        let mut i: usize = 0;
        while i < self.ids.len()
            invariant
                0 <= i <= self.ids@.len(),
                forall|j: int| 0 <= j < i ==> self.ids@[j] != id,
            decreases self.ids@.len() - i,
        {
            let e = self.ids[i];
            if e.0 == id.0 && e.1 == id.1 && e.2 == id.2 && e.3 == id.3 {
                return true;
            }
            i = i + 1;
        }
        false
    }

    /// Add `id`; true when it was not there before.
    pub fn insert(&mut self, id: EntityId) -> (r: bool)
        requires
            old(self).wf(),
        ensures
            final(self).wf(),
            r == !old(self)@.contains(id),
            final(self)@ == old(self)@.insert(id),
    {
        if self.contains(id) {
            proof {
                assert(self@.insert(id) =~= self@);
            }
            false
        } else {
            let ghost before = self.ids@;
            self.ids.push(id);
            proof {
                before.lemma_push_to_set_commute(id);
            }
            true
        }
    }

    pub fn len(&self) -> (r: usize)
        requires
            self.wf(),
        ensures
            r == self@.len(),
    {
        proof {
            self.ids@.unique_seq_to_set();
        }
        self.ids.len()
    }

    pub fn clear(&mut self)
        ensures
            final(self).wf(),
            final(self)@ == Set::<EntityId>::empty(),
    {
        self.ids = Vec::new();
        proof {
            assert(self.ids@.to_set() =~= Set::<EntityId>::empty());
        }
    }
}

/// What is known of the entities, as sets of identities.
pub struct EntityState {
    pub unlocked_locks: Set<EntityId>,
    pub collected_keys: Set<EntityId>,
    pub collected_stars: Set<EntityId>,
}

impl EntityState {
    pub open spec fn empty() -> EntityState {
        EntityState {
            unlocked_locks: Set::empty(),
            collected_keys: Set::empty(),
            collected_stars: Set::empty(),
        }
    }

    pub open spec fn with_lock_unlocked(self, room: RoomId, position: Vec2) -> EntityState {
        EntityState {
            unlocked_locks: self.unlocked_locks.insert(entity_id_of(room, position)),
            ..self
        }
    }

    pub open spec fn with_key_collected(self, room: RoomId, position: Vec2) -> EntityState {
        EntityState {
            collected_keys: self.collected_keys.insert(entity_id_of(room, position)),
            ..self
        }
    }

    pub open spec fn with_star_collected(self, room: RoomId, position: Vec2) -> EntityState {
        EntityState {
            collected_stars: self.collected_stars.insert(entity_id_of(room, position)),
            ..self
        }
    }

    pub open spec fn key_collected(self, room: RoomId, position: Vec2) -> bool {
        self.collected_keys.contains(entity_id_of(room, position))
    }

    pub open spec fn lock_unlocked(self, room: RoomId, position: Vec2) -> bool {
        self.unlocked_locks.contains(entity_id_of(room, position))
    }

    pub open spec fn star_collected(self, room: RoomId, position: Vec2) -> bool {
        self.collected_stars.contains(entity_id_of(room, position))
    }
}

/// Unlocked locks, collected keys and collected stars.
pub struct EntityStateStore {
    unlocked_locks: EntitySet,
    collected_keys: EntitySet,
    collected_stars: EntitySet,
}

impl View for EntityStateStore {
    type V = EntityState;

    closed spec fn view(&self) -> EntityState {
        EntityState {
            unlocked_locks: self.unlocked_locks@,
            collected_keys: self.collected_keys@,
            collected_stars: self.collected_stars@,
        }
    }
}

impl EntityStateStore {
    pub closed spec fn wf(&self) -> bool {
        &&& self.unlocked_locks.wf()
        &&& self.collected_keys.wf()
        &&& self.collected_stars.wf()
    }

    pub fn new() -> (r: Self)
        ensures
            r.wf(),
            r@ == EntityState::empty(),
    {
        EntityStateStore {
            unlocked_locks: EntitySet::new(),
            collected_keys: EntitySet::new(),
            collected_stars: EntitySet::new(),
        }
    }
}

/// Mark a lock as unlocked (persists across room transitions).
pub fn mark_lock_unlocked(store: &mut EntityStateStore, room: RoomId, position: Vec2)
    requires
        old(store).wf(),
    ensures
        final(store).wf(),
        final(store)@ == old(store)@.with_lock_unlocked(room, position),
{
    let id = make_entity_id(room, position);
    store.unlocked_locks.insert(id);
}

/// Check if a lock has been unlocked.
pub fn is_lock_unlocked(store: &EntityStateStore, room: RoomId, position: Vec2) -> (r: bool)
    ensures
        r == store@.lock_unlocked(room, position),
{
    let id = make_entity_id(room, position);
    store.unlocked_locks.contains(id)
}

/// Mark a key as collected (persists across room transitions).
pub fn mark_key_collected(store: &mut EntityStateStore, room: RoomId, position: Vec2)
    requires
        old(store).wf(),
    ensures
        final(store).wf(),
        final(store)@ == old(store)@.with_key_collected(room, position),
{
    let id = make_entity_id(room, position);
    store.collected_keys.insert(id);
}

/// Check if a key has been collected.
pub fn is_key_collected(store: &EntityStateStore, room: RoomId, position: Vec2) -> (r: bool)
    ensures
        r == store@.key_collected(room, position),
{
    let id = make_entity_id(room, position);
    store.collected_keys.contains(id)
}

/// Mark a star as collected (persists across room transitions).
pub fn mark_star_collected(store: &mut EntityStateStore, room: RoomId, position: Vec2)
    requires
        old(store).wf(),
    ensures
        final(store).wf(),
        final(store)@ == old(store)@.with_star_collected(room, position),
{
    let id = make_entity_id(room, position);
    store.collected_stars.insert(id);
}

/// Check if a star has been collected.
pub fn is_star_collected(store: &EntityStateStore, room: RoomId, position: Vec2) -> (r: bool)
    ensures
        r == store@.star_collected(room, position),
{
    let id = make_entity_id(room, position);
    store.collected_stars.contains(id)
}

/// The number of distinct stars collected.
pub fn get_star_count(store: &EntityStateStore) -> (r: usize)
    requires
        store.wf(),
    ensures
        r == store@.collected_stars.len(),
{
    store.collected_stars.len()
}

/// Forget every entity state (for a new game).
pub fn reset(store: &mut EntityStateStore)
    ensures
        final(store).wf(),
        final(store)@ == EntityState::empty(),
{
    store.unlocked_locks.clear();
    store.collected_keys.clear();
    store.collected_stars.clear();
}

} // verus!
