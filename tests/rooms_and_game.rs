use std::cell::Cell;

use platformer_core::entity::{EntityKind, RoomEntity};
use platformer_core::game::portal_connector::{find_portal_in_room, portal_spawn_position};
use platformer_core::game::room_manager::{
    CollisionLayers, CollisionRestore, RoomManager, StartError, TransitionOutcome,
    TransitionRequest, TransitionStep,
};
use platformer_core::game::spawn_resolver::{SpawnPoint, SpawnResolver};
use platformer_core::geometry::Vec2;
use platformer_core::rooms::loader::{scene_path_for, RoomLoader};
use platformer_core::rooms::transition::BoundaryDetector;
use platformer_core::save::checkpoints::{
    has_save, queue_load, save_checkpoint, take_pending_load, CheckpointStore,
};
use platformer_core::save::service::{SaveEventKind, SaveService};

#[test]
fn test_scene_path_pattern_substitution() {
    let loader: RoomLoader<u32> = RoomLoader::new("res://rooms/Room_{x}_{y}.scn".to_string());
    assert_eq!(loader.scene_path_pattern(), "res://rooms/Room_{x}_{y}.scn");
}

#[test]
fn scene_path_substitutes_coordinates() {
    let loader: RoomLoader<u32> = RoomLoader::new("res://rooms/Room_{x}_{y}.scn".to_string());
    assert_eq!(loader.scene_path((3, 12)), "res://rooms/Room_3_12.scn");
    assert_eq!(loader.scene_path((-1, 0)), "res://rooms/Room_-1_0.scn");
    let pattern = "{y}/{x}/{x}{z}".to_string();
    assert_eq!(scene_path_for(&pattern, (i32::MIN, 1907)), "1907/-2147483648/-2147483648{z}");
    assert_eq!(scene_path_for(&"{x".to_string(), (5, 5)), "{x");
}

#[test]
fn loader_caches_successful_loads_only() {
    let mut loader: RoomLoader<u32> = RoomLoader::new("Room_{x}_{y}".to_string());
    let calls = Cell::new(0);

    let missing = loader.load_room_scene((9, 9), |_path| {
        calls.set(calls.get() + 1);
        None
    });
    assert!(missing.is_none());
    assert!(loader.cached_scene((9, 9)).is_none());
    // Failures are retried.
    assert!(!loader.room_exists((9, 9), |_path| {
        calls.set(calls.get() + 1);
        None
    }));
    assert_eq!(calls.get(), 2);

    let seen = Cell::new(false);
    let loaded = loader.load_room_scene((0, 1), |path| {
        seen.set(path == "Room_0_1");
        Some(41)
    });
    assert_eq!(loaded, Some(41));
    assert!(seen.get());
    assert_eq!(loader.cached_scene((0, 1)), Some(&41));
    // A hit does not load again.
    let again = loader.load_room_scene((0, 1), |_path| Some(99));
    assert_eq!(again, Some(41));
    assert!(loader.room_exists((0, 1), |_path| None));
    assert!(loader.cached_scene((1, 0)).is_none());
}

#[test]
fn instantiate_room_uses_loaded_resource() {
    let mut loader: RoomLoader<u32> = RoomLoader::new("Room_{x}_{y}".to_string());
    let container = loader.instantiate_room((2, 2), |_p| Some(7), |scene| Some(scene * 10));
    assert_eq!(container, Some(70));
    let wrong_root: Option<u32> = loader.instantiate_room((2, 2), |_p| None, |_scene| None);
    assert!(wrong_root.is_none());
    let missing = loader.instantiate_room((3, 3), |_p| None, |scene: u32| Some(scene));
    assert!(missing.is_none());
}

#[test]
fn resolve_uses_pending_load_when_room_exists() {
    let resolver = SpawnResolver::new((0, 1), Vec2::from_pixels(64, 64));
    let mut store = CheckpointStore::new();
    save_checkpoint(&mut store, 0, (4, 2), Vec2::from_pixels(30, 40));
    assert!(queue_load(&mut store, 0));
    let spawn = resolver.resolve(&mut store, |room| room == (4, 2));
    assert_eq!(spawn, SpawnPoint { room: (4, 2), position: Vec2::from_pixels(30, 40) });
    assert!(take_pending_load(&mut store).is_none());
}

#[test]
fn resolve_without_pending_load_gives_default() {
    let resolver = SpawnResolver::new((0, 1), Vec2::from_pixels(64, 64));
    let mut store = CheckpointStore::new();
    save_checkpoint(&mut store, 0, (4, 2), Vec2::from_pixels(30, 40));
    let asked = Cell::new(false);
    let spawn = resolver.resolve(&mut store, |_room| {
        asked.set(true);
        true
    });
    assert_eq!(spawn, SpawnPoint { room: (0, 1), position: Vec2::from_pixels(64, 64) });
    assert!(!asked.get());
}

#[test]
fn resolve_stale_pending_load_falls_back_and_is_consumed() {
    let resolver = SpawnResolver::new((0, 1), Vec2::from_pixels(64, 64));
    let default = SpawnPoint { room: (0, 1), position: Vec2::from_pixels(64, 64) };
    let mut store = CheckpointStore::new();
    save_checkpoint(&mut store, 0, (8, 8), Vec2::from_pixels(1, 1));
    assert!(queue_load(&mut store, 0));
    assert_eq!(resolver.resolve(&mut store, |_room| false), default);
    // The marker is gone: a second resolve behaves as if nothing was queued.
    assert_eq!(resolver.resolve(&mut store, |_room| true), default);
    assert!(has_save(&store, 0));
}

fn entities() -> Vec<RoomEntity> {
    vec![
        RoomEntity::new(EntityKind::Key, Vec2::from_pixels(10, 10)),
        RoomEntity::new(EntityKind::Other, Vec2::from_pixels(20, 10)),
        RoomEntity::new(EntityKind::Portal, Vec2::from_pixels(100, 50)),
        RoomEntity::new(EntityKind::Checkpoint, Vec2::from_pixels(30, 10)),
        RoomEntity::new(EntityKind::Portal, Vec2::from_pixels(200, 50)),
        RoomEntity::new(EntityKind::Star, Vec2::from_pixels(40, 10)),
        RoomEntity::new(EntityKind::Lock, Vec2::from_pixels(50, 10)),
    ]
}

#[test]
fn portal_lookup_finds_first_portal() {
    let list = entities();
    assert_eq!(find_portal_in_room(&list), Some(2));
    assert_eq!(portal_spawn_position(&list, Vec2::new(0, 0)), Vec2::from_pixels(100, 50));
    let none = vec![RoomEntity::new(EntityKind::Key, Vec2::new(1, 1))];
    assert_eq!(find_portal_in_room(&none), None);
    assert_eq!(portal_spawn_position(&none, Vec2::new(5, 6)), Vec2::new(5, 6));
    assert_eq!(portal_spawn_position(&Vec::new(), Vec2::new(5, 6)), Vec2::new(5, 6));
}

#[test]
fn connect_room_entities_classifies_each_entity() {
    let service = SaveService::new();
    let subscriptions = service.connect_room_entities(&entities());
    assert_eq!(
        subscriptions,
        vec![
            Some(SaveEventKind::KeyCollected),
            None,
            None,
            Some(SaveEventKind::CheckpointActivated),
            None,
            Some(SaveEventKind::StarCollected),
            Some(SaveEventKind::LockUnlocked),
        ]
    );
}

fn started_manager() -> RoomManager<String> {
    let mut manager = RoomManager::new(BoundaryDetector::new(50), Vec2::from_pixels(64, 64));
    let spawn = SpawnPoint { room: (0, 1), position: Vec2::from_pixels(64, 64) };
    assert_eq!(
        manager.start_session(spawn, Some("room 0 1".to_string())),
        Ok(Vec2::from_pixels(64, 64))
    );
    manager
}

#[test]
fn session_start_fails_without_room() {
    let mut manager: RoomManager<String> =
        RoomManager::new(BoundaryDetector::new(50), Vec2::new(0, 0));
    let spawn = SpawnPoint { room: (3, 3), position: Vec2::new(0, 0) };
    assert_eq!(
        manager.start_session(spawn, None),
        Err(StartError::RoomMissing { room: (3, 3) })
    );
    assert_eq!(manager.current_room(), None);
    assert!(manager.check_room_transitions(Vec2::from_pixels(330, 10), Vec2::from_pixels(1, 0)).is_none());
}

#[test]
fn transition_to_missing_room_changes_nothing() {
    let mut manager = started_manager();
    let check = manager
        .check_room_transitions(Vec2::from_pixels(320, 90), Vec2::from_pixels(10, 0))
        .unwrap();
    assert_eq!(check.target_room, (1, 1));
    let step = manager.begin_transition(TransitionRequest::Boundary(check), false);
    assert!(matches!(step, TransitionStep::Skipped));
    assert_eq!(manager.current_room(), Some((0, 1)));
    assert_eq!(manager.current_container(), Some(&"room 0 1".to_string()));
    assert_eq!(manager.collision_restore(), CollisionRestore::Idle);
}

#[test]
fn boundary_transition_swaps_rooms_and_restores_collision_next_tick() {
    let mut manager = started_manager();
    let check = manager
        .check_room_transitions(Vec2::from_pixels(320, 90), Vec2::from_pixels(10, 0))
        .unwrap();
    match manager.begin_transition(TransitionRequest::Boundary(check), true) {
        TransitionStep::Proceed { old_container, target_room } => {
            assert_eq!(old_container, Some("room 0 1".to_string()));
            assert_eq!(target_room, (1, 1));
        }
        TransitionStep::Skipped => panic!("transition should proceed"),
    }
    assert_eq!(manager.current_container(), None);
    // No second transition while one is under way.
    assert!(manager.check_room_transitions(Vec2::from_pixels(320, 90), Vec2::from_pixels(10, 0)).is_none());

    let layers = CollisionLayers { layer: 3, mask: 5 };
    let outcome = manager.finish_transition(Some("room 1 1".to_string()), &Vec::new(), layers);
    assert_eq!(
        outcome,
        TransitionOutcome::Completed { room: (1, 1), position: Vec2::from_pixels(0, 90) }
    );
    assert_eq!(manager.current_room(), Some((1, 1)));
    assert_eq!(manager.current_container(), Some(&"room 1 1".to_string()));
    assert_eq!(
        manager.collision_restore(),
        CollisionRestore::Pending { saved: layers, ticks_remaining: 1 }
    );
    assert_eq!(manager.physics_tick(), Some(layers));
    assert_eq!(manager.collision_restore(), CollisionRestore::Idle);
    assert_eq!(manager.physics_tick(), None);
}

#[test]
fn portal_transition_places_player_at_portal_or_default() {
    let mut manager = started_manager();
    let step = manager.begin_transition(TransitionRequest::Portal { destination: (5, 5) }, true);
    assert!(matches!(step, TransitionStep::Proceed { target_room: (5, 5), .. }));
    let outcome = manager.finish_transition(
        Some("room 5 5".to_string()),
        &entities(),
        CollisionLayers { layer: 1, mask: 1 },
    );
    assert_eq!(
        outcome,
        TransitionOutcome::Completed { room: (5, 5), position: Vec2::from_pixels(100, 50) }
    );

    // A second transition before the restore keeps the bits saved first.
    manager.begin_transition(TransitionRequest::Portal { destination: (6, 5) }, true);
    let outcome = manager.finish_transition(
        Some("room 6 5".to_string()),
        &Vec::new(),
        CollisionLayers { layer: 0, mask: 0 },
    );
    assert_eq!(
        outcome,
        TransitionOutcome::Completed { room: (6, 5), position: Vec2::from_pixels(64, 64) }
    );
    assert_eq!(manager.physics_tick(), Some(CollisionLayers { layer: 1, mask: 1 }));
}

#[test]
fn failed_instantiation_keeps_room_coordinate_and_reports() {
    let mut manager = started_manager();
    manager.begin_transition(TransitionRequest::Portal { destination: (5, 5) }, true);
    let outcome =
        manager.finish_transition(None, &Vec::new(), CollisionLayers { layer: 1, mask: 1 });
    assert_eq!(outcome, TransitionOutcome::Failed { room: (5, 5) });
    assert_eq!(manager.current_room(), Some((0, 1)));
    assert_eq!(manager.current_container(), None);
    assert_eq!(manager.collision_restore(), CollisionRestore::Idle);
}
