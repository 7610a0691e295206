//! Room streaming and save state for a grid-of-rooms platformer: boundary
//! detection, room loading with a cache, spawn resolution, the room-transition
//! protocol, and the persistent progress store.

pub mod entity;
pub mod game;
pub mod geometry;
pub mod rooms;
pub mod save;
