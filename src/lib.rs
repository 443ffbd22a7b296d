//! An in-memory registry of chat rooms: users join and leave named rooms,
//! post messages to them and read back each room's history.
pub mod handler;
pub mod laws;
pub mod model;
pub mod payload;
pub mod rules;
pub mod state;
pub mod store;
