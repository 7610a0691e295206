//! Persistent progress: checkpoint slots, entity states and explored rooms.
use vstd::prelude::*;

pub mod checkpoints;
pub mod entity_state;
pub mod exploration;
pub mod service;

use crate::geometry::{RoomId, Vec2};
use checkpoints::{CheckpointState, CheckpointStore, SaveSnapshot};
use entity_state::{EntityState, EntityStateStore};
use exploration::ExplorationStore;

verus! {

/// Everything that the store remembers.
pub struct SaveState {
    pub checkpoints: CheckpointState,
    pub entities: EntityState,
    pub explored: Set<RoomId>,
}

impl SaveState {
    pub open spec fn empty() -> SaveState {
        SaveState {
            checkpoints: CheckpointState::empty(),
            entities: EntityState::empty(),
            explored: Set::empty(),
        }
    }
}

/// The single store of all progress state. A host that reaches it from
/// several places keeps it behind one lock.
pub struct SaveStore {
    pub checkpoints: CheckpointStore,
    pub entities: EntityStateStore,
    pub exploration: ExplorationStore,
}

impl View for SaveStore {
    type V = SaveState;

    open spec fn view(&self) -> SaveState {
        SaveState {
            checkpoints: self.checkpoints@,
            entities: self.entities@,
            explored: self.exploration@,
        }
    }
}

impl SaveStore {
    pub open spec fn wf(&self) -> bool {
        &&& self.checkpoints.wf()
        &&& self.entities.wf()
        &&& self.exploration.wf()
    }

    pub fn new() -> (r: Self)
        ensures
            r.wf(),
            r@ == SaveState::empty(),
    {
        SaveStore {
            checkpoints: CheckpointStore::new(),
            entities: EntityStateStore::new(),
            exploration: ExplorationStore::new(),
        }
    }
}

/// Reset all game state (for a new game): every slot, every set and the marker.
pub fn reset_all(store: &mut SaveStore)
    ensures
        final(store).wf(),
        final(store)@ == SaveState::empty(),
{
    checkpoints::reset(&mut store.checkpoints);
    entity_state::reset(&mut store.entities);
    exploration::reset(&mut store.exploration);
}

/// Saving a checkpoint and then peeking at its slot gives back the saved room
/// and position; peeking reads only, so it gives the same answer every time.
pub proof fn lemma_save_then_peek(s: CheckpointState, slot: usize, room: RoomId, position: Vec2)
    ensures
        s.saved(slot, SaveSnapshot { room, position }).peek(slot) == Some(
            SaveSnapshot { room, position },
        ),
{
}

/// Taking the pending load twice in a row gives nothing the second time, while
/// every slot keeps its snapshot.
pub proof fn lemma_take_pending_twice(s: CheckpointState, slot: usize)
    ensures
        s.unqueued().pending_snapshot() is None,
        s.unqueued().unqueued() == s.unqueued(),
        s.unqueued().unqueued().peek(slot) == s.peek(slot),
{
}

/// Queueing an empty slot fails and changes nothing: with no slot queued
/// before, a following take gives nothing.
pub proof fn lemma_queue_empty_slot(s: CheckpointState, slot: usize)
    requires
        !s.slots.contains_key(slot),
    ensures
        s.queued(slot) == s,
        s.pending is None ==> s.queued(slot).pending_snapshot() is None,
{
}

/// The entity state after marking the key at `position` in `room` `n` times.
pub open spec fn key_marked_times(s: EntityState, room: RoomId, position: Vec2, n: nat) -> EntityState
    decreases n,
{
    if n == 0 {
        s
    } else {
        key_marked_times(s, room, position, (n - 1) as nat).with_key_collected(room, position)
    }
}

/// Marking a key collected any number of times, at least once, has the effect
/// of marking it once: the key reads as collected and the stars are untouched.
pub proof fn lemma_mark_key_idempotent(s: EntityState, room: RoomId, position: Vec2, n: nat)
    requires
        n >= 1,
    ensures
        key_marked_times(s, room, position, n) == s.with_key_collected(room, position),
        key_marked_times(s, room, position, n).key_collected(room, position),
        key_marked_times(s, room, position, n).collected_stars == s.collected_stars,
    decreases n,
{
    let once = s.with_key_collected(room, position);
    if n == 1 {
        assert(key_marked_times(s, room, position, 0) == s);
    } else {
        lemma_mark_key_idempotent(s, room, position, (n - 1) as nat);
        assert(once.with_key_collected(room, position).collected_keys =~= once.collected_keys);
        assert(once.with_key_collected(room, position) == once);
    }
}

/// After a full reset no slot holds a save, no key, lock or star is marked,
/// and no room is explored.
pub proof fn lemma_reset_all_clears(slot: usize, room: RoomId, position: Vec2)
    ensures
        !SaveState::empty().checkpoints.slots.contains_key(slot),
        SaveState::empty().checkpoints.pending_snapshot() is None,
        !SaveState::empty().entities.key_collected(room, position),
        !SaveState::empty().entities.lock_unlocked(room, position),
        !SaveState::empty().entities.star_collected(room, position),
        !SaveState::empty().explored.contains(room),
{
}

} // verus!
