//! Forwards the progress events that a room's entities emit into the store.
use vstd::prelude::*;

use crate::entity::{EntityKind, RoomEntity};
use crate::geometry::{RoomId, Vec2};
use super::checkpoints::{self, SaveSnapshot, DEFAULT_SAVE_SLOT};
use super::entity_state;
use super::{SaveState, SaveStore};

verus! {

/// The progress events that entities emit, each with a room and a position.
#[derive(Clone, Copy, Debug, PartialEq, Eq, Structural)]
pub enum SaveEventKind {
    KeyCollected,
    LockUnlocked,
    CheckpointActivated,
    StarCollected,
}

/// The event that an entity of `kind` emits, if it emits one.
pub open spec fn save_event_of(kind: EntityKind) -> Option<SaveEventKind> {
    match kind {
        EntityKind::Key => Some(SaveEventKind::KeyCollected),
        EntityKind::Lock => Some(SaveEventKind::LockUnlocked),
        EntityKind::Checkpoint => Some(SaveEventKind::CheckpointActivated),
        EntityKind::Star => Some(SaveEventKind::StarCollected),
        _ => None,
    }
}

impl SaveState {
    /// The state after the store has handled `event` at `position` in `room`.
    pub open spec fn after_event(self, event: SaveEventKind, room: RoomId, position: Vec2) -> SaveState {
        match event {
            SaveEventKind::KeyCollected => SaveState {
                entities: self.entities.with_key_collected(room, position),
                ..self
            },
            SaveEventKind::LockUnlocked => SaveState {
                entities: self.entities.with_lock_unlocked(room, position),
                ..self
            },
            SaveEventKind::CheckpointActivated => SaveState {
                checkpoints: self.checkpoints.saved(
                    DEFAULT_SAVE_SLOT,
                    SaveSnapshot { room, position },
                ),
                ..self
            },
            SaveEventKind::StarCollected => SaveState {
                entities: self.entities.with_star_collected(room, position),
                ..self
            },
        }
    }
}

/// Handling the same event twice has the effect of handling it once, so an
/// entity that ends up subscribed twice does no harm.
pub proof fn lemma_event_idempotent(s: SaveState, event: SaveEventKind, room: RoomId, position: Vec2)
    ensures
        s.after_event(event, room, position).after_event(event, room, position) == s.after_event(
            event,
            room,
            position,
        ),
{
    let once = s.after_event(event, room, position);
    let twice = once.after_event(event, room, position);
    assert(twice.entities.collected_keys =~= once.entities.collected_keys);
    assert(twice.entities.unlocked_locks =~= once.entities.unlocked_locks);
    assert(twice.entities.collected_stars =~= once.entities.collected_stars);
    assert(twice.checkpoints.slots =~= once.checkpoints.slots);
}

/// Bridges room entities and the save store.
#[derive(Clone, Copy, Debug)]
pub struct SaveService {}

impl SaveService {
    pub fn new() -> (r: SaveService) {
        SaveService {}
    }

    /// The event to subscribe to for an entity of `kind`, if any.
    pub fn event_for(kind: EntityKind) -> (r: Option<SaveEventKind>)
        ensures
            r == save_event_of(kind),
    {
        match kind {
            EntityKind::Key => Some(SaveEventKind::KeyCollected),
            EntityKind::Lock => Some(SaveEventKind::LockUnlocked),
            EntityKind::Checkpoint => Some(SaveEventKind::CheckpointActivated),
            EntityKind::Star => Some(SaveEventKind::StarCollected),
            _ => None,
        }
    }

    /// For each entity of a freshly loaded room, in order, the event to
    /// subscribe to (none for entities that persist nothing). Called again for
    /// every room that is loaded.
    pub fn connect_room_entities(&self, entities: &Vec<RoomEntity>) -> (r: Vec<Option<SaveEventKind>>)
        ensures
            r@.len() == entities@.len(),
            forall|i: int| 0 <= i < entities@.len() ==> r@[i] == save_event_of(#[trigger] entities@[i].kind),
    {
        let mut out: Vec<Option<SaveEventKind>> = Vec::new();
        let mut i: usize = 0;
        while i < entities.len()
            invariant
                0 <= i <= entities@.len(),
                out@.len() == i,
                forall|j: int| 0 <= j < i ==> out@[j] == save_event_of(#[trigger] entities@[j].kind),
            decreases entities@.len() - i,
        {
            out.push(Self::event_for(entities[i].kind));
            i = i + 1;
        }
        out
    }

    /// Write an event into the store.
    pub fn handle_event(&self, store: &mut SaveStore, event: SaveEventKind, room: RoomId, position: Vec2)
        requires
            old(store).wf(),
        ensures
            final(store).wf(),
            final(store)@ == old(store)@.after_event(event, room, position),
    {
        match event {
            SaveEventKind::KeyCollected => {
                entity_state::mark_key_collected(&mut store.entities, room, position);
            },
            SaveEventKind::LockUnlocked => {
                entity_state::mark_lock_unlocked(&mut store.entities, room, position);
            },
            SaveEventKind::CheckpointActivated => {
                checkpoints::save_checkpoint(&mut store.checkpoints, DEFAULT_SAVE_SLOT, room, position);
            },
            SaveEventKind::StarCollected => {
                entity_state::mark_star_collected(&mut store.entities, room, position);
            },
        }
    }
}

} // verus!
