//! Where the player appears when a session starts.
use vstd::prelude::*;

use crate::geometry::{RoomId, Vec2};
use crate::save::checkpoints::{self, CheckpointStore, SaveSnapshot};

verus! {

/// A room and a position in it where the player appears.
#[derive(Clone, Copy, Debug, PartialEq, Eq)]
pub struct SpawnPoint {
    pub room: RoomId,
    pub position: Vec2,
}

/// Resolves spawn points from a queued save, or else a configured default.
#[derive(Clone, Copy, Debug)]
pub struct SpawnResolver {
    initial_room: RoomId,
    initial_position: Vec2,
}

impl SpawnResolver {
    pub fn new(initial_room: RoomId, initial_position: Vec2) -> (r: Self)
        ensures
            r.initial_spawn() == (SpawnPoint { room: initial_room, position: initial_position }),
    {
        SpawnResolver { initial_room, initial_position }
    }

    /// The configured default spawn point.
    pub closed spec fn initial_spawn(self) -> SpawnPoint {
        SpawnPoint { room: self.initial_room, position: self.initial_position }
    }

    /// The spawn point for a pending snapshot whose room was found to exist
    /// (`room_exists`) or not: the snapshot when it is there and its room
    /// exists, the default otherwise.
    pub open spec fn spawn_for(self, pending: Option<SaveSnapshot>, room_exists: bool) -> SpawnPoint {
        match pending {
            Some(snapshot) => if room_exists {
                SpawnPoint { room: snapshot.room, position: snapshot.position }
            } else {
                self.initial_spawn()
            },
            None => self.initial_spawn(),
        }
    }

    /// Resolve the spawn point. The pending load is consumed whatever the
    /// outcome; `room_exists` is asked only about the pending snapshot's room.
    pub fn resolve<F: FnOnce(RoomId) -> bool>(&self, store: &mut CheckpointStore, room_exists: F) -> (r:
        SpawnPoint)
        requires
            old(store).wf(),
            forall|room: RoomId| call_requires(room_exists, (room,)),
        ensures
            final(store).wf(),
            final(store)@ == old(store)@.unqueued(),
            old(store)@.pending_snapshot() is None ==> r == self.initial_spawn(),
            old(store)@.pending_snapshot() matches Some(snapshot) ==> exists|found: bool|
                call_ensures(room_exists, (snapshot.room,), found) && r == self.spawn_for(
                    Some(snapshot),
                    found,
                ),
    {
        match checkpoints::take_pending_load(store) {
            Some(snapshot) => {
                let found = room_exists(snapshot.room);
                let r = if found {
                    SpawnPoint { room: snapshot.room, position: snapshot.position }
                } else {
                    SpawnPoint { room: self.initial_room, position: self.initial_position }
                };
                assert(call_ensures(room_exists, (snapshot.room,), found) && r == self.spawn_for(
                    Some(snapshot),
                    found,
                ));
                r
            },
            None => SpawnPoint { room: self.initial_room, position: self.initial_position },
        }
    }
}

/// A pending load whose room is missing resolves to the default spawn point,
/// and since it is consumed, a second resolve finds nothing queued and gives
/// the default too.
pub proof fn lemma_stale_pending_load_consumed(
    resolver: SpawnResolver,
    s: checkpoints::CheckpointState,
    second_probe: bool,
)
    requires
        s.pending_snapshot() is Some,
    ensures
        resolver.spawn_for(s.pending_snapshot(), false) == resolver.initial_spawn(),
        s.unqueued().pending_snapshot() is None,
        resolver.spawn_for(s.unqueued().pending_snapshot(), second_probe) == resolver.initial_spawn(),
{
}

} // verus!
