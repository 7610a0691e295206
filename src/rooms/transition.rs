//! Boundary detection: when the player's body has crossed far enough past a
//! room edge, in the direction it is moving, the neighbouring room takes over.
use vstd::prelude::*;

use crate::geometry::{RoomId, Vec2, SUBPIXELS_PER_PIXEL};

verus! {

/// Room width, in sub-pixels (320 pixels).
pub const ROOM_WIDTH: i32 = 320 * SUBPIXELS_PER_PIXEL;

/// Room height, in sub-pixels (240 pixels).
pub const ROOM_HEIGHT: i32 = 240 * SUBPIXELS_PER_PIXEL;

/// Player width, in sub-pixels (16 pixels).
pub const PLAYER_WIDTH: i32 = 16 * SUBPIXELS_PER_PIXEL;

/// Player height, in sub-pixels (24 pixels).
pub const PLAYER_HEIGHT: i32 = 24 * SUBPIXELS_PER_PIXEL;

/// Where a boundary crossing leads: the adjacent room, and the player's
/// position mirrored onto that room's opposite edge.
#[derive(Clone, Copy, Debug)]
pub struct TransitionCheck {
    pub target_room: RoomId,
    pub new_position: Vec2,
}

/// Decides boundary crossings. The threshold is the share of the player's
/// extent, in percent, that must stick out past an edge.
#[derive(Clone, Copy, Debug)]
pub struct BoundaryDetector {
    pub cross_threshold_percent: u32,
}

/// An edge is crossed when the body sticks out past it (`overflow` > 0) by at
/// least `threshold_percent` percent of the body's `extent` on that axis.
pub open spec fn crosses(threshold_percent: u32, overflow: int, extent: int) -> bool {
    overflow > 0 && overflow * 100 >= threshold_percent * extent
}

/// How far the player's left edge is past the room's left edge.
pub open spec fn overflow_left(pos: Vec2) -> int {
    PLAYER_WIDTH / 2 - pos.x
}

/// How far the player's right edge is past the room's right edge.
pub open spec fn overflow_right(pos: Vec2) -> int {
    pos.x + PLAYER_WIDTH / 2 - ROOM_WIDTH
}

/// How far the player's top edge is past the room's top edge.
pub open spec fn overflow_up(pos: Vec2) -> int {
    PLAYER_HEIGHT / 2 - pos.y
}

/// How far the player's bottom edge is past the room's bottom edge.
pub open spec fn overflow_down(pos: Vec2) -> int {
    pos.y + PLAYER_HEIGHT / 2 - ROOM_HEIGHT
}

/// The crossing that a player at `pos` moving with `vel` in room `room` makes.
/// Left, right, up and down are tried in that order and the first that fires
/// decides; a room beyond the end of the grid is never entered.
pub open spec fn transition_of(threshold_percent: u32, pos: Vec2, vel: Vec2, room: RoomId) -> Option<
    TransitionCheck,
> {
    if vel.x < 0 && crosses(threshold_percent, overflow_left(pos), PLAYER_WIDTH as int) {
        if room.0 > i32::MIN {
            Some(
                TransitionCheck {
                    target_room: ((room.0 - 1) as i32, room.1),
                    new_position: Vec2 { x: (pos.x + ROOM_WIDTH) as i32, y: pos.y },
                },
            )
        } else {
            None
        }
    } else if vel.x > 0 && crosses(threshold_percent, overflow_right(pos), PLAYER_WIDTH as int) {
        if room.0 < i32::MAX {
            Some(
                TransitionCheck {
                    target_room: ((room.0 + 1) as i32, room.1),
                    new_position: Vec2 { x: (pos.x - ROOM_WIDTH) as i32, y: pos.y },
                },
            )
        } else {
            None
        }
    } else if vel.y < 0 && crosses(threshold_percent, overflow_up(pos), PLAYER_HEIGHT as int) {
        if room.1 > i32::MIN {
            Some(
                TransitionCheck {
                    target_room: (room.0, (room.1 - 1) as i32),
                    new_position: Vec2 { x: pos.x, y: (pos.y + ROOM_HEIGHT) as i32 },
                },
            )
        } else {
            None
        }
    } else if vel.y > 0 && crosses(threshold_percent, overflow_down(pos), PLAYER_HEIGHT as int) {
        if room.1 < i32::MAX {
            Some(
                TransitionCheck {
                    target_room: (room.0, (room.1 + 1) as i32),
                    new_position: Vec2 { x: pos.x, y: (pos.y - ROOM_HEIGHT) as i32 },
                },
            )
        } else {
            None
        }
    } else {
        None
    }
}

impl BoundaryDetector {
    pub fn new(cross_threshold_percent: u32) -> (r: Self)
        ensures
            r.cross_threshold_percent == cross_threshold_percent,
    {
        BoundaryDetector { cross_threshold_percent }
    }

    /// Whether a transition fires; see `transition_of`.
    pub fn check_transition(&self, player_pos: Vec2, player_velocity: Vec2, current_room: RoomId) -> (r:
        Option<TransitionCheck>)
        ensures
            r == transition_of(self.cross_threshold_percent, player_pos, player_velocity, current_room),
    {
        let half_width: i64 = (PLAYER_WIDTH / 2) as i64;
        let half_height: i64 = (PLAYER_HEIGHT / 2) as i64;
        let x = player_pos.x as i64;
        let y = player_pos.y as i64;
        if player_velocity.x < 0 {
            if self.should_trigger(half_width - x, PLAYER_WIDTH as i64) {
                if current_room.0 > i32::MIN {
                    return Some(
                        TransitionCheck {
                            target_room: (current_room.0 - 1, current_room.1),
                            new_position: Vec2 { x: player_pos.x + ROOM_WIDTH, y: player_pos.y },
                        },
                    );
                }
                return None;
            }
        } else if player_velocity.x > 0 {
            if self.should_trigger(x + half_width - ROOM_WIDTH as i64, PLAYER_WIDTH as i64) {
                if current_room.0 < i32::MAX {
                    return Some(
                        TransitionCheck {
                            target_room: (current_room.0 + 1, current_room.1),
                            new_position: Vec2 { x: player_pos.x - ROOM_WIDTH, y: player_pos.y },
                        },
                    );
                }
                return None;
            }
        }
        if player_velocity.y < 0 {
            if self.should_trigger(half_height - y, PLAYER_HEIGHT as i64) {
                if current_room.1 > i32::MIN {
                    return Some(
                        TransitionCheck {
                            target_room: (current_room.0, current_room.1 - 1),
                            new_position: Vec2 { x: player_pos.x, y: player_pos.y + ROOM_HEIGHT },
                        },
                    );
                }
                return None;
            }
        } else if player_velocity.y > 0 {
            if self.should_trigger(y + half_height - ROOM_HEIGHT as i64, PLAYER_HEIGHT as i64) {
                if current_room.1 < i32::MAX {
                    return Some(
                        TransitionCheck {
                            target_room: (current_room.0, current_room.1 + 1),
                            new_position: Vec2 { x: player_pos.x, y: player_pos.y - ROOM_HEIGHT },
                        },
                    );
                }
                return None;
            }
        }
        None
    }

    fn should_trigger(&self, overflow: i64, player_extent: i64) -> (r: bool)
        requires
            -0x1_0000_0000 <= overflow <= 0x1_0000_0000,
            0 < player_extent <= 0x1_0000,
        ensures
            r == crosses(self.cross_threshold_percent, overflow as int, player_extent as int),
    {
        if overflow <= 0 {
            return false;
        }
        let threshold = self.cross_threshold_percent as i64;
        proof {
            assert(0 <= threshold * player_extent <= 0xffff_ffff * 0x1_0000) by (nonlinear_arith)
                requires
                    0 <= threshold <= 0xffff_ffff,
                    0 < player_extent <= 0x1_0000,
            ;
        }
        overflow * 100 >= threshold * player_extent
    }
}

/// A player whose body lies wholly inside the room triggers no transition,
/// whatever its velocity.
pub proof fn lemma_inside_room_no_transition(threshold_percent: u32, pos: Vec2, vel: Vec2, room: RoomId)
    requires
        overflow_left(pos) <= 0,
        overflow_right(pos) <= 0,
        overflow_up(pos) <= 0,
        overflow_down(pos) <= 0,
    ensures
        transition_of(threshold_percent, pos, vel, room) is None,
{
}

/// Moving right with the body past the right edge by exactly the threshold
/// share leads to the room on the right, with x moved back by one room width
/// and y kept.
pub proof fn lemma_right_overflow_at_threshold(threshold_percent: u32, pos: Vec2, vel: Vec2, room: RoomId)
    requires
        vel.x > 0,
        overflow_right(pos) > 0,
        overflow_right(pos) * 100 == threshold_percent * PLAYER_WIDTH,
        room.0 < i32::MAX,
    ensures
        transition_of(threshold_percent, pos, vel, room) == Some(
            TransitionCheck {
                target_room: ((room.0 + 1) as i32, room.1),
                new_position: Vec2 { x: (pos.x - ROOM_WIDTH) as i32, y: pos.y },
            },
        ),
{
}

/// The same overflow past the right edge while moving left triggers nothing,
/// when the body is inside the room vertically.
pub proof fn lemma_right_overflow_moving_away(threshold_percent: u32, pos: Vec2, vel: Vec2, room: RoomId)
    requires
        vel.x < 0,
        overflow_right(pos) > 0,
        overflow_up(pos) <= 0,
        overflow_down(pos) <= 0,
    ensures
        transition_of(threshold_percent, pos, vel, room) is None,
{
}

} // verus!
