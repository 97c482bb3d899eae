//! Session and matchmaking orchestration for a networked real-time strategy
//! game.
//!
//! The crate covers both ends of the matchmaking handshake: the client-side
//! connection state machine (login, signaling channel, pending-sync queue,
//! match-found handoff) and the server-side match lifecycle manager
//! (player-connect tracking and phase transitions).  All I/O lives outside
//! this crate; the functions here take plain values in and hand plain values
//! back, so every decision the orchestration layer makes is verified.

pub mod channel;
pub mod events;
pub mod frames;
pub mod handoff;
pub mod json;
pub mod manager;
pub mod server;
pub mod session;
