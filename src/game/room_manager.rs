//! The room manager: which room is current, and the protocol that swaps it for
//! another. The host performs the engine work (destroying and instantiating
//! room containers, moving the player); the manager decides every step and
//! holds the current room's container, of whatever type the host uses.
use vstd::prelude::*;

use crate::entity::RoomEntity;
use crate::game::portal_connector::{first_portal_position, portal_spawn_position};
use crate::game::spawn_resolver::SpawnPoint;
use crate::geometry::{RoomId, Vec2};
use crate::rooms::transition::{transition_of, BoundaryDetector, TransitionCheck};

verus! {

/// A physics body's collision layer and mask bits.
#[derive(Clone, Copy, Debug, PartialEq, Eq, Structural)]
pub struct CollisionLayers {
    pub layer: u32,
    pub mask: u32,
}

/// The deferred restore of the player's collision bits after a transition.
#[derive(Clone, Copy, Debug, PartialEq, Eq, Structural)]
pub enum CollisionRestore {
    Idle,
    Pending { saved: CollisionLayers, ticks_remaining: u32 },
}

/// Why a room change was asked for.
#[derive(Clone, Copy, Debug)]
pub enum TransitionRequest {
    /// The player crossed a room edge.
    Boundary(TransitionCheck),
    /// A portal asked to teleport to `destination`.
    Portal { destination: RoomId },
}

impl TransitionRequest {
    /// Where the player goes in the target room: the mirrored position of a
    /// boundary crossing, or the room's first portal (else `default_position`)
    /// for a portal teleport.
    pub open spec fn placement(self, entities: Seq<RoomEntity>, default_position: Vec2) -> Vec2 {
        match self {
            TransitionRequest::Boundary(check) => check.new_position,
            TransitionRequest::Portal { .. } => first_portal_position(entities, default_position),
        }
    }

    pub open spec fn target(self) -> RoomId {
        match self {
            TransitionRequest::Boundary(check) => check.target_room,
            TransitionRequest::Portal { destination } => destination,
        }
    }

    pub fn target_room(&self) -> (r: RoomId)
        ensures
            r == self.target(),
    {
        match self {
            TransitionRequest::Boundary(check) => check.target_room,
            TransitionRequest::Portal { destination } => *destination,
        }
    }
}

/// The first step of a transition.
pub enum TransitionStep<C> {
    /// The target room does not exist: nothing changes.
    Skipped,
    /// Go ahead: detach the player, destroy `old_container`, and instantiate
    /// `target_room`.
    Proceed { old_container: Option<C>, target_room: RoomId },
}

/// How a transition ended.
#[derive(Clone, Copy, Debug, PartialEq, Eq)]
pub enum TransitionOutcome {
    /// The player goes into the new room at `position`; its collision bits
    /// are zeroed until the deferred restore.
    Completed { room: RoomId, position: Vec2 },
    /// The new room could not be instantiated: the player goes under the
    /// manager itself, and the error is reported.
    Failed { room: RoomId },
}

/// A session could not start.
#[derive(Clone, Copy, Debug, PartialEq, Eq)]
pub enum StartError {
    /// The spawn room could not be instantiated.
    RoomMissing { room: RoomId },
}

/// What the manager holds, as plain values.
pub struct RoomManagerState<C> {
    /// The current room; none before the session has started.
    pub current_room: Option<RoomId>,
    /// The current room's container.
    pub container: Option<C>,
    pub collision: CollisionRestore,
    /// The transition that has begun and not yet finished.
    pub in_flight: Option<TransitionRequest>,
}

/// Owns the current-room state and drives room transitions.
pub struct RoomManager<C> {
    boundary_detector: BoundaryDetector,
    default_portal_position: Vec2,
    current_room: Option<RoomId>,
    current_room_node: Option<C>,
    collision: CollisionRestore,
    in_flight: Option<TransitionRequest>,
}

impl<C> View for RoomManager<C> {
    type V = RoomManagerState<C>;

    closed spec fn view(&self) -> RoomManagerState<C> {
        RoomManagerState {
            current_room: self.current_room,
            container: self.current_room_node,
            collision: self.collision,
            in_flight: self.in_flight,
        }
    }
}

impl<C> RoomManager<C> {
    pub closed spec fn detector(&self) -> BoundaryDetector {
        self.boundary_detector
    }

    pub closed spec fn portal_default(&self) -> Vec2 {
        self.default_portal_position
    }

    /// The saved bits that a transition finishing now keeps for the restore.
    pub open spec fn layers_to_keep(collision: CollisionRestore, current: CollisionLayers) -> CollisionLayers {
        match collision {
            CollisionRestore::Pending { saved, .. } => saved,
            CollisionRestore::Idle => current,
        }
    }

    /// A manager with no room loaded yet.
    pub fn new(boundary_detector: BoundaryDetector, default_portal_position: Vec2) -> (r: Self)
        ensures
            r@.current_room is None,
            r@.container is None,
            r@.collision == CollisionRestore::Idle,
            r@.in_flight is None,
            r.detector() == boundary_detector,
            r.portal_default() == default_portal_position,
    {
        RoomManager {
            boundary_detector,
            default_portal_position,
            current_room: None,
            current_room_node: None,
            collision: CollisionRestore::Idle,
            in_flight: None,
        }
    }

    /// The current room, once a session has started.
    pub fn current_room(&self) -> (r: Option<RoomId>)
        ensures
            r == self@.current_room,
    {
        self.current_room
    }

    /// The current room's container.
    pub fn current_container(&self) -> (r: Option<&C>)
        ensures
            r == match self@.container {
                Some(c) => Some(&c),
                None => None,
            },
    {
        self.current_room_node.as_ref()
    }

    /// Whether a transition has begun and not yet finished.
    pub fn is_transitioning(&self) -> (r: bool)
        ensures
            r == self@.in_flight is Some,
    {
        self.in_flight.is_some()
    }

    /// The state of the deferred collision restore.
    pub fn collision_restore(&self) -> (r: CollisionRestore)
        ensures
            r == self@.collision,
    {
        self.collision
    }

    /// Start the session in the resolved spawn room, given its instantiated
    /// container, or fail when it could not be instantiated (not retried).
    /// On success the player is to be spawned at the returned position.
    pub fn start_session(&mut self, spawn: SpawnPoint, room: Option<C>) -> (r: Result<Vec2, StartError>)
        requires
            old(self)@.current_room is None,
        ensures
            room is None ==> r == Err::<Vec2, StartError>(StartError::RoomMissing { room: spawn.room })
                && final(self)@ == old(self)@,
            room is Some ==> r == Ok::<Vec2, StartError>(spawn.position) && final(self)@
                == (RoomManagerState::<C> {
                current_room: Some(spawn.room),
                container: room,
                collision: old(self)@.collision,
                in_flight: None,
            }),
            final(self).detector() == old(self).detector(),
            final(self).portal_default() == old(self).portal_default(),
    {
        match room {
            Some(container) => {
                self.current_room = Some(spawn.room);
                self.current_room_node = Some(container);
                self.in_flight = None;
                Ok(spawn.position)
            },
            None => Err(StartError::RoomMissing { room: spawn.room }),
        }
    }

    /// The boundary crossing that the player makes this tick, if any; none
    /// before the session has started or while a transition is under way.
    pub fn check_room_transitions(&self, player_pos: Vec2, player_velocity: Vec2) -> (r: Option<
        TransitionCheck,
    >)
        ensures
            r == match (self@.current_room, self@.in_flight) {
                (Some(room), None) => transition_of(
                    self.detector().cross_threshold_percent,
                    player_pos,
                    player_velocity,
                    room,
                ),
                _ => None,
            },
    {
        match (self.current_room, self.in_flight) {
            (Some(room), None) => self.boundary_detector.check_transition(
                player_pos,
                player_velocity,
                room,
            ),
            _ => None,
        }
    }

    /// Begin a transition, given whether its target room exists. A missing
    /// target, or no current room, skips it and leaves everything as it was;
    /// otherwise the old container is handed out to be destroyed.
    pub fn begin_transition(&mut self, request: TransitionRequest, target_exists: bool) -> (r:
        TransitionStep<C>)
        requires
            old(self)@.in_flight is None,
        ensures
            final(self).detector() == old(self).detector(),
            final(self).portal_default() == old(self).portal_default(),
            !target_exists || old(self)@.current_room is None ==> r is Skipped && final(self)@
                == old(self)@,
            target_exists && old(self)@.current_room is Some ==> r == (TransitionStep::Proceed {
                old_container: old(self)@.container,
                target_room: request.target(),
            }) && final(self)@ == (RoomManagerState::<C> {
                current_room: old(self)@.current_room,
                container: None,
                collision: old(self)@.collision,
                in_flight: Some(request),
            }),
    {
        if !target_exists || self.current_room.is_none() {
            return TransitionStep::Skipped;
        }
        let old_container = self.current_room_node.take();
        let target_room = request.target_room();
        self.in_flight = Some(request);
        TransitionStep::Proceed { old_container, target_room }
    }

    /// Finish the transition that has begun, given the new room's container
    /// (none when it could not be instantiated), its entities and the player's
    /// collision bits now. On success the new room becomes current, the player
    /// goes to the mirrored position (boundary) or to the room's portal or the
    /// default position (portal), and the player's collision bits are restored
    /// one tick later.
    pub fn finish_transition(
        &mut self,
        new_room: Option<C>,
        entities: &Vec<RoomEntity>,
        player_layers: CollisionLayers,
    ) -> (r: TransitionOutcome)
        requires
            old(self)@.in_flight is Some,
        ensures
            final(self).detector() == old(self).detector(),
            final(self).portal_default() == old(self).portal_default(),
            final(self)@.in_flight is None,
            new_room is None ==> r == (TransitionOutcome::Failed {
                room: old(self)@.in_flight->Some_0.target(),
            }) && final(self)@.current_room == old(self)@.current_room
                && final(self)@.container is None
                && final(self)@.collision == old(self)@.collision,
            new_room is Some ==> r == (TransitionOutcome::Completed {
                room: old(self)@.in_flight->Some_0.target(),
                position: old(self)@.in_flight->Some_0.placement(entities@, old(self).portal_default()),
            }) && final(self)@.current_room == Some(old(self)@.in_flight->Some_0.target())
                && final(self)@.container == new_room
                && final(self)@.collision == (CollisionRestore::Pending {
                saved: Self::layers_to_keep(old(self)@.collision, player_layers),
                ticks_remaining: 1,
            }),
    {
        let request = self.in_flight.take().unwrap();
        let target_room = request.target_room();
        match new_room {
            None => {
                self.current_room_node = None;
                TransitionOutcome::Failed { room: target_room }
            },
            Some(container) => {
                let position = match request {
                    TransitionRequest::Boundary(check) => check.new_position,
                    TransitionRequest::Portal { .. } => portal_spawn_position(
                        entities,
                        self.default_portal_position,
                    ),
                };
                let saved = match self.collision {
                    CollisionRestore::Pending { saved, .. } => saved,
                    CollisionRestore::Idle => player_layers,
                };
                self.collision = CollisionRestore::Pending { saved, ticks_remaining: 1 };
                self.current_room = Some(target_room);
                self.current_room_node = Some(container);
                TransitionOutcome::Completed { room: target_room, position }
            },
        }
    }

    /// Advance the deferred collision restore by one physics tick; returns the
    /// bits to put back when it is due.
    pub fn physics_tick(&mut self) -> (r: Option<CollisionLayers>)
        ensures
            final(self).detector() == old(self).detector(),
            final(self).portal_default() == old(self).portal_default(),
            final(self)@.current_room == old(self)@.current_room,
            final(self)@.container == old(self)@.container,
            final(self)@.in_flight == old(self)@.in_flight,
            match old(self)@.collision {
                CollisionRestore::Idle => r is None && final(self)@.collision == CollisionRestore::Idle,
                CollisionRestore::Pending { saved, ticks_remaining } => if ticks_remaining <= 1 {
                    r == Some(saved) && final(self)@.collision == CollisionRestore::Idle
                } else {
                    r is None && final(self)@.collision == (CollisionRestore::Pending {
                        saved,
                        ticks_remaining: (ticks_remaining - 1) as u32,
                    })
                },
            },
    {
        match self.collision {
            CollisionRestore::Idle => None,
            CollisionRestore::Pending { saved, ticks_remaining } => {
                if ticks_remaining <= 1 {
                    self.collision = CollisionRestore::Idle;
                    Some(saved)
                } else {
                    self.collision = CollisionRestore::Pending {
                        saved,
                        ticks_remaining: ticks_remaining - 1,
                    };
                    None
                }
            },
        }
    }
}

} // verus!
