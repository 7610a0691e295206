//! Rooms: detecting when the player leaves one, and loading the next.

pub mod loader;
pub mod transition;
