use platformer_core::geometry::Vec2;
use platformer_core::rooms::transition::{BoundaryDetector, ROOM_HEIGHT, ROOM_WIDTH};

#[test]
fn test_no_transition_when_not_at_boundary() {
    let detector = BoundaryDetector::new(50);
    let result = detector.check_transition(
        Vec2::from_pixels(160, 90), // Center of room
        Vec2::from_pixels(10, 0),   // Moving right
        (0, 1),
    );
    assert!(result.is_none());
}

#[test]
fn test_transition_right_when_threshold_exceeded() {
    let detector = BoundaryDetector::new(50);
    // Player at right edge: 320 - 8 (half width) + 8 (50% overflow) = 320
    let result = detector.check_transition(
        Vec2::from_pixels(320, 90),
        Vec2::from_pixels(10, 0), // Moving right
        (0, 1),
    );
    assert!(result.is_some());
    let check = result.unwrap();
    assert_eq!(check.target_room, (1, 1));
}

#[test]
fn test_no_transition_when_moving_wrong_direction() {
    let detector = BoundaryDetector::new(50);
    // At right boundary but moving left
    let result = detector.check_transition(
        Vec2::from_pixels(320, 90),
        Vec2::from_pixels(-10, 0), // Moving left
        (0, 1),
    );
    assert!(result.is_none());
}

#[test]
fn test_transition_left() {
    let detector = BoundaryDetector::new(50);
    let result = detector.check_transition(
        Vec2::from_pixels(-8, 90),  // 50% overflow on left
        Vec2::from_pixels(-10, 0), // Moving left
        (1, 1),
    );
    assert!(result.is_some());
    let check = result.unwrap();
    assert_eq!(check.target_room, (0, 1));
}

#[test]
fn test_transition_down() {
    let detector = BoundaryDetector::new(50);
    let result = detector.check_transition(
        Vec2::from_pixels(160, 240 + 12), // 50% overflow downward
        Vec2::from_pixels(0, 10),         // Moving down
        (0, 1),
    );
    assert!(result.is_some());
    let check = result.unwrap();
    assert_eq!(check.target_room, (0, 2));
}

#[test]
fn test_transition_up() {
    let detector = BoundaryDetector::new(50);
    let result = detector.check_transition(
        Vec2::from_pixels(160, -12), // 50% overflow upward
        Vec2::from_pixels(0, -10),   // Moving up
        (0, 1),
    );
    assert!(result.is_some());
    let check = result.unwrap();
    assert_eq!(check.target_room, (0, 0));
}

#[test]
fn centered_player_never_transitions_in_any_direction() {
    let detector = BoundaryDetector::new(50);
    let center = Vec2::from_pixels(160, 120);
    for (vx, vy) in [(10, 0), (-10, 0), (0, 10), (0, -10), (7, -7), (-3, 9)] {
        let result = detector.check_transition(center, Vec2::from_pixels(vx, vy), (0, 1));
        assert!(result.is_none());
    }
}

#[test]
fn right_crossing_mirrors_position_onto_next_room() {
    let detector = BoundaryDetector::new(50);
    let pos = Vec2::from_pixels(320, 90);
    let check = detector
        .check_transition(pos, Vec2::from_pixels(10, 0), (0, 1))
        .unwrap();
    assert_eq!(check.target_room, (1, 1));
    assert_eq!(check.new_position, Vec2::new(pos.x - ROOM_WIDTH, pos.y));
    assert_eq!(check.new_position, Vec2::from_pixels(0, 90));
}

#[test]
fn left_up_and_down_crossings_mirror_positions() {
    let detector = BoundaryDetector::new(50);
    let left = detector
        .check_transition(Vec2::from_pixels(-8, 90), Vec2::from_pixels(-10, 0), (1, 1))
        .unwrap();
    assert_eq!(left.new_position, Vec2::from_pixels(312, 90));
    let up = detector
        .check_transition(Vec2::from_pixels(160, -12), Vec2::from_pixels(0, -10), (0, 1))
        .unwrap();
    assert_eq!(up.new_position, Vec2::from_pixels(160, 228));
    assert_eq!(up.new_position.y, Vec2::from_pixels(0, -12).y + ROOM_HEIGHT);
    let down = detector
        .check_transition(Vec2::from_pixels(160, 252), Vec2::from_pixels(0, 10), (0, 1))
        .unwrap();
    assert_eq!(down.new_position, Vec2::from_pixels(160, 12));
}

#[test]
fn overflow_just_below_threshold_does_not_transition() {
    let detector = BoundaryDetector::new(50);
    // 7 pixels and 63 sub-pixels past the edge: just under half of 16 pixels.
    let pos = Vec2::new(Vec2::from_pixels(320, 0).x - 1, Vec2::from_pixels(0, 90).y);
    assert!(detector.check_transition(pos, Vec2::from_pixels(10, 0), (0, 1)).is_none());
}

#[test]
fn zero_threshold_fires_on_any_overflow_but_not_on_touching() {
    let detector = BoundaryDetector::new(0);
    let touching = Vec2::from_pixels(312, 90);
    assert!(detector.check_transition(touching, Vec2::from_pixels(1, 0), (0, 0)).is_none());
    let past = Vec2::new(touching.x + 1, touching.y);
    let check = detector.check_transition(past, Vec2::from_pixels(1, 0), (0, 0)).unwrap();
    assert_eq!(check.target_room, (1, 0));
}

#[test]
fn horizontal_crossing_takes_precedence_over_vertical() {
    let detector = BoundaryDetector::new(50);
    let corner = Vec2::from_pixels(320, 252);
    let check = detector
        .check_transition(corner, Vec2::from_pixels(10, 10), (0, 1))
        .unwrap();
    assert_eq!(check.target_room, (1, 1));
}

#[test]
fn no_room_beyond_the_grid_edge() {
    let detector = BoundaryDetector::new(50);
    let result = detector.check_transition(
        Vec2::from_pixels(320, 90),
        Vec2::from_pixels(10, 0),
        (i32::MAX, 0),
    );
    assert!(result.is_none());
}

#[test]
fn standing_still_never_transitions() {
    let detector = BoundaryDetector::new(50);
    let result = detector.check_transition(Vec2::from_pixels(330, 260), Vec2::new(0, 0), (0, 1));
    assert!(result.is_none());
}
