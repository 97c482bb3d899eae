//! The typed events that cross the orchestrator's boundary: requests coming
//! in from the presentation layer, notifications going back out, and the
//! request/response shapes of the HTTP session API.

use vstd::prelude::*;
use vstd::string::StringExecFns;

use crate::channel::OutboundCommand;
use crate::manager::PlayerProfile;

verus! {

// ---------------------------------------------------------------------------
// Requests: presentation layer -> orchestrator
// ---------------------------------------------------------------------------

#[derive(Clone, Debug, PartialEq, Eq)]
pub struct LoginRequested {
    pub username: String,
    pub password: String,
}

#[derive(Clone, Copy, Debug, PartialEq, Eq, Structural)]
pub struct LogoutRequested;

#[derive(Clone, Debug, PartialEq, Eq)]
pub struct JoinQueueRequested {
    pub game_mode: GameMode,
}

#[derive(Clone, Copy, Debug, PartialEq, Eq, Structural)]
pub struct LeaveQueueRequested;

#[derive(Clone, Debug, PartialEq, Eq)]
pub struct StartOfflineGameRequested {
    pub game_mode: GameMode,
    pub difficulty: Difficulty,
}

#[derive(Clone, Copy, Debug, PartialEq, Eq, Structural)]
pub struct SyncNowRequested;

#[derive(Clone, Debug, PartialEq, Eq)]
pub struct ConnectWebSocketRequested {
    pub jwt_token: String,
}

#[derive(Clone, Copy, Debug, PartialEq, Eq, Structural)]
pub struct DisconnectWebSocketRequested;

#[derive(Clone, Debug, PartialEq, Eq)]
pub struct SendWebSocketMessageRequested {
    pub message: OutboundCommand,
}

// ---------------------------------------------------------------------------
// Notifications: orchestrator -> presentation layer
// ---------------------------------------------------------------------------

#[derive(Clone, Debug, PartialEq, Eq)]
pub struct LoginCompleted {
    pub success: bool,
    pub player_profile: Option<PlayerProfile>,
    pub error: Option<String>,
}

#[derive(Clone, Copy, Debug, PartialEq, Eq, Structural)]
pub struct LogoutCompleted;

/// The match-found handoff payload, immutable once received.
#[derive(Clone, Debug, PartialEq, Eq)]
pub struct MatchFound {
    pub match_id: u64,
    pub server_host: String,
    pub server_port: u16,
    pub server_secret: String,
    pub players: Vec<u64>,
}

#[derive(Clone, Debug, PartialEq, Eq)]
pub struct QueueJoined {
    /// Estimated wait, in whole seconds, when the server offered one.
    pub estimated_wait_time: Option<u64>,
}

#[derive(Clone, Debug, PartialEq, Eq)]
pub struct QueueJoinResponse {
    pub success: bool,
    pub message: String,
}

#[derive(Clone, Copy, Debug, PartialEq, Eq, Structural)]
pub struct QueueLeft;

#[derive(Clone, Debug, PartialEq, Eq)]
pub struct ConnectionEstablished {
    pub message: String,
}

#[derive(Clone, Debug, PartialEq, Eq)]
pub struct ConnectionLost {
    pub reason: String,
    /// Suggested delay before a reconnect attempt, in whole seconds.
    pub retry_in_secs: u64,
}

#[derive(Clone, Debug, PartialEq, Eq)]
pub struct SyncCompleted {
    pub success: bool,
    pub conflicts: Vec<String>,
}

#[derive(Clone, Debug, PartialEq, Eq)]
pub struct NetworkError {
    pub error: String,
    pub recoverable: bool,
}

// ---------------------------------------------------------------------------
// Supporting types
// ---------------------------------------------------------------------------

#[derive(Clone, Copy, Debug, PartialEq, Eq, Structural)]
pub enum GameMode {
    Ranked,
    Casual,
    Practice,
}

/// The wire name of a game mode.
pub open spec fn game_mode_wire(m: GameMode) -> Seq<char> {
    match m {
        GameMode::Ranked => "ranked"@,
        GameMode::Casual => "casual"@,
        GameMode::Practice => "practice"@,
    }
}

impl GameMode {
    /// The lower-case name used on the wire and in user-facing text.
    pub fn wire_name(&self) -> (r: String)
        ensures
            r@ == game_mode_wire(*self),
    {
        match self {
            GameMode::Ranked => String::from_str("ranked"),
            GameMode::Casual => String::from_str("casual"),
            GameMode::Practice => String::from_str("practice"),
        }
    }
}

#[derive(Clone, Copy, Debug, PartialEq, Eq, Structural)]
pub enum Difficulty {
    Easy,
    Medium,
    Hard,
}

// ---------------------------------------------------------------------------
// HTTP session API shapes
// ---------------------------------------------------------------------------

#[derive(Clone, Debug, PartialEq, Eq)]
pub struct LoginRequest {
    pub username: String,
    pub password: String,
}

/// Queue join over HTTP: the fallback used while no signaling channel is
/// connected yet.
#[derive(Clone, Debug, PartialEq, Eq)]
pub struct QueueRequest {
    pub game_mode: String,
    pub player_id: u64,
}

#[derive(Clone, Debug, PartialEq, Eq)]
pub struct LoginResponse {
    pub success: bool,
    pub message: String,
    pub data: Option<PlayerData>,
}

#[derive(Clone, Debug, PartialEq, Eq)]
pub struct PlayerData {
    pub player_id: u64,
    pub username: String,
    pub token: String,
}

} // verus!
