//! Checkpoint slots and the one-shot marker that says which slot the next
//! session resumes from.
use vstd::prelude::*;

use crate::geometry::{RoomId, Vec2, SUBPIXELS_PER_PIXEL};

verus! {

/// Default save slot index.
pub const DEFAULT_SAVE_SLOT: usize = 0;

/// Where the player should resume: a room and a position in it.
#[derive(Clone, Copy, Debug, PartialEq, Eq)]
pub struct SaveSnapshot {
    pub room: RoomId,
    pub position: Vec2,
}

impl SaveSnapshot {
    pub fn new(room: RoomId, position: Vec2) -> (r: SaveSnapshot)
        ensures
            r == (SaveSnapshot { room, position }),
    {
        SaveSnapshot { room, position }
    }
}

/// The slots that hold a snapshot, and the slot queued for the next session.
pub struct CheckpointState {
    pub slots: Map<usize, SaveSnapshot>,
    pub pending: Option<usize>,
}

impl CheckpointState {
    pub open spec fn empty() -> CheckpointState {
        CheckpointState { slots: Map::empty(), pending: None }
    }

    /// The snapshot in `slot`, if any.
    pub open spec fn peek(self, slot: usize) -> Option<SaveSnapshot> {
        if self.slots.contains_key(slot) {
            Some(self.slots[slot])
        } else {
            None
        }
    }

    /// The snapshot that the queued slot holds, if a slot is queued.
    pub open spec fn pending_snapshot(self) -> Option<SaveSnapshot> {
        match self.pending {
            Some(slot) => self.peek(slot),
            None => None,
        }
    }

    /// After saving `snapshot` into `slot`.
    pub open spec fn saved(self, slot: usize, snapshot: SaveSnapshot) -> CheckpointState {
        CheckpointState { slots: self.slots.insert(slot, snapshot), pending: self.pending }
    }

    /// After asking to resume from `slot`: queued only if the slot holds a snapshot.
    pub open spec fn queued(self, slot: usize) -> CheckpointState {
        if self.slots.contains_key(slot) {
            CheckpointState { slots: self.slots, pending: Some(slot) }
        } else {
            self
        }
    }

    /// After the queued slot has been consumed or cleared.
    pub open spec fn unqueued(self) -> CheckpointState {
        CheckpointState { slots: self.slots, pending: None }
    }

    /// A queued slot always holds a snapshot.
    pub open spec fn valid(self) -> bool {
        self.pending matches Some(slot) ==> self.slots.contains_key(slot)
    }
}

/// How far, in sub-pixels, a checkpoint may stand from a saved position and
/// still be the checkpoint that was saved (one pixel).
pub const POSITION_MATCH_EPSILON: i32 = SUBPIXELS_PER_PIXEL;

/// Whether a checkpoint at `position` in `room` is the one that `snapshot`
/// was saved from: same room, and within the match distance.
pub open spec fn is_saved_checkpoint(snapshot: SaveSnapshot, room: RoomId, position: Vec2) -> bool {
    let dx = snapshot.position.x - position.x;
    let dy = snapshot.position.y - position.y;
    &&& snapshot.room == room
    &&& dx * dx + dy * dy <= POSITION_MATCH_EPSILON * POSITION_MATCH_EPSILON
}

/// Whether a checkpoint at `position` in `room` is the one that `snapshot`
/// was saved from.
pub fn matches_saved_checkpoint(snapshot: &SaveSnapshot, room: RoomId, position: Vec2) -> (r: bool)
    ensures
        r == is_saved_checkpoint(*snapshot, room, position),
{
    if snapshot.room.0 != room.0 || snapshot.room.1 != room.1 {
        return false;
    }
    let dx = snapshot.position.x as i64 - position.x as i64;
    let dy = snapshot.position.y as i64 - position.y as i64;
    let eps = POSITION_MATCH_EPSILON as i64;
    if dx < -eps || dx > eps || dy < -eps || dy > eps {
        proof {
            let (a, b, e) = (dx as int, dy as int, eps as int);
            assert(a * a + b * b > e * e) by (nonlinear_arith)
                requires
                    e == 64,
                    a < -e || a > e || b < -e || b > e,
            ;
        }
        return false;
    }
    proof {
        let (a, b, e) = (dx as int, dy as int, eps as int);
        assert(0 <= a * a <= e * e) by (nonlinear_arith)
            requires
                e == 64,
                -e <= a <= e,
        ;
        assert(0 <= b * b <= e * e) by (nonlinear_arith)
            requires
                e == 64,
                -e <= b <= e,
        ;
    }
    dx * dx + dy * dy <= eps * eps
}

/// Whether the checkpoint at `position` in `room` was the last one saved into
/// the default slot, so that it shows as activated when its room loads again.
pub fn restore_if_saved(store: &CheckpointStore, room: RoomId, position: Vec2) -> (r: bool)
    ensures
        r == (store@.peek(DEFAULT_SAVE_SLOT) matches Some(snapshot) && is_saved_checkpoint(
            snapshot,
            room,
            position,
        )),
{
    match peek_checkpoint(store, DEFAULT_SAVE_SLOT) {
        Some(snapshot) => matches_saved_checkpoint(&snapshot, room, position),
        None => false,
    }
}

/// Checkpoint slots, indexed by slot number, and the pending-load marker.
pub struct CheckpointStore {
    slots: Vec<Option<SaveSnapshot>>,
    pending_load_slot: Option<usize>,
}

/// The filled slots of `slots` as a map from slot number to snapshot.
pub open spec fn filled_slots(slots: Seq<Option<SaveSnapshot>>) -> Map<usize, SaveSnapshot> {
    Map::new(
        |i: usize| (i as int) < slots.len() && slots[i as int] is Some,
        |i: usize| slots[i as int]->Some_0,
    )
}

impl View for CheckpointStore {
    type V = CheckpointState;

    closed spec fn view(&self) -> CheckpointState {
        CheckpointState { slots: filled_slots(self.slots@), pending: self.pending_load_slot }
    }
}

impl CheckpointStore {
    pub closed spec fn wf(&self) -> bool {
        self@.valid()
    }

    pub fn new() -> (r: Self)
        ensures
            r.wf(),
            r@ == CheckpointState::empty(),
    {
        let r = CheckpointStore { slots: Vec::new(), pending_load_slot: None };
        proof {
            assert(filled_slots(r.slots@) =~= Map::<usize, SaveSnapshot>::empty());
        }
        r
    }

    /// Grow the slot list so that `slot` is a valid index.
    fn ensure_slot(&mut self, slot: usize)
        requires
            old(self).wf(),
        ensures
            final(self).wf(),
            final(self)@ == old(self)@,
            slot < final(self).slots@.len(),
    {
        if self.slots.len() > slot {
            return;
        }
        while self.slots.len() <= slot
            invariant
                self.wf(),
                self@ == old(self)@,
                self.slots@.len() <= slot as int + 1,
            decreases slot as int + 1 - self.slots@.len(),
        {
            let ghost before = self.slots@;
            self.slots.push(None);
            proof {
                assert(filled_slots(self.slots@) =~= filled_slots(before));
            }
        }
    }
}

/// Save checkpoint data into the specified slot, overwriting what it held.
pub fn save_checkpoint(store: &mut CheckpointStore, slot: usize, room: RoomId, position: Vec2) -> (r:
    SaveSnapshot)
    requires
        old(store).wf(),
    ensures
        final(store).wf(),
        r == (SaveSnapshot { room, position }),
        final(store)@ == old(store)@.saved(slot, r),
{
    store.ensure_slot(slot);
    let snapshot = SaveSnapshot::new(room, position);
    let ghost before = store.slots@;
    store.slots[slot] = Some(snapshot);
    proof {
        assert(filled_slots(store.slots@) =~= filled_slots(before).insert(slot, snapshot));
    }
    snapshot
}

/// Peek at the saved checkpoint for a slot without consuming it.
pub fn peek_checkpoint(store: &CheckpointStore, slot: usize) -> (r: Option<SaveSnapshot>)
    ensures
        r == store@.peek(slot),
{
    if slot < store.slots.len() {
        store.slots[slot]
    } else {
        None
    }
}

/// Check if a slot currently has data.
pub fn has_save(store: &CheckpointStore, slot: usize) -> (r: bool)
    ensures
        r == store@.slots.contains_key(slot),
{
    slot < store.slots.len() && store.slots[slot].is_some()
}

/// Queue a slot to be resumed by the next session; false, and no change, if it is empty.
pub fn queue_load(store: &mut CheckpointStore, slot: usize) -> (r: bool)
    requires
        old(store).wf(),
    ensures
        final(store).wf(),
        r == old(store)@.slots.contains_key(slot),
        final(store)@ == old(store)@.queued(slot),
{
    if has_save(store, slot) {
        store.pending_load_slot = Some(slot);
        true
    } else {
        false
    }
}

/// Consume the pending load request, returning the queued slot's snapshot if one was queued.
pub fn take_pending_load(store: &mut CheckpointStore) -> (r: Option<SaveSnapshot>)
    requires
        old(store).wf(),
    ensures
        final(store).wf(),
        r == old(store)@.pending_snapshot(),
        r is Some <==> old(store)@.pending is Some,
        final(store)@ == old(store)@.unqueued(),
{
    match store.pending_load_slot.take() {
        Some(slot) => peek_checkpoint(store, slot),
        None => None,
    }
}

/// Clear the pending-load marker without removing saved data.
pub fn clear_pending_load(store: &mut CheckpointStore)
    requires
        old(store).wf(),
    ensures
        final(store).wf(),
        final(store)@ == old(store)@.unqueued(),
{
    store.pending_load_slot = None;
}

/// Empty every slot and clear the marker (for a new game).
pub fn reset(store: &mut CheckpointStore)
    ensures
        final(store).wf(),
        final(store)@ == CheckpointState::empty(),
{
    store.slots = Vec::new();
    store.pending_load_slot = None;
    proof {
        assert(filled_slots(store.slots@) =~= Map::<usize, SaveSnapshot>::empty());
    }
}

} // verus!
