//! Session start and the room-transition protocol.

pub mod portal_connector;
pub mod room_manager;
pub mod spawn_resolver;
