//! Monty-Hall door game rooms: the per-room state machine, round statistics,
//! and the request dispatcher that drives rooms on behalf of connections.
pub mod error;
mod outside;
pub mod room;
pub mod stats;
pub mod session;

pub use error::{Error, Result};
pub use room::{random_door, Decision, Room, RoomState, RoundResult, Settings, Stage};
pub use stats::GameResult;
