//! The orchestrator's state: connection state, player identity, signaling
//! channel, and the pending-sync queue.
//!
//! `NetworkManager` is the single owner of all of this.  Background tasks
//! never touch it directly; their results are applied on tick boundaries by
//! the session functions in [`crate::session`].

use std::collections::VecDeque;
use vstd::prelude::*;
use vstd::string::StringExecFns;

use crate::channel::{ChannelState, OutboundCommand};

verus! {

/// Connection state of the client session.  Exactly one value at a time,
/// mutated only by the orchestrator itself.
#[derive(Clone, Copy, Debug, PartialEq, Eq, Structural)]
pub enum ConnectionState {
    Offline,
    Connecting,
    Online,
    Syncing,
}

/// Identity and derived stats of the authenticated player.  Created on
/// successful authentication, cleared on logout or authentication failure.
#[derive(Clone, Debug, PartialEq, Eq)]
pub struct PlayerProfile {
    pub jwt_token: String,
    pub user_id: u64,
    pub username: String,
    pub level: u32,
    pub elo: u32,
}

/// An action awaiting reconciliation with the backend.  Appended when
/// generated, removed only after a confirmed round trip, retried with the
/// counter incremented on failure.
#[derive(Clone, Debug, PartialEq, Eq)]
pub struct PendingSync {
    pub action: SyncAction,
    /// Seconds since the epoch when the action was generated.
    pub timestamp: u64,
    pub retry_count: u32,
}

#[derive(Clone, Debug, PartialEq, Eq)]
pub enum SyncAction {
    UpdateProfile(PlayerProfile),
    RecordGameResult(GameResult),
    UpdateSettings(GameSettings),
}

/// Final score of a finished match, one tally per side.
#[derive(Clone, Copy, Debug, PartialEq, Eq, Structural)]
pub struct Score {
    pub home: u32,
    pub away: u32,
}

#[derive(Clone, Debug, PartialEq, Eq)]
pub struct GameResult {
    pub match_id: u64,
    pub winner: Option<u64>,
    pub duration_secs: u64,
    pub final_score: Score,
}

#[derive(Clone, Debug, PartialEq, Eq)]
pub struct GameSettings {
    /// Audio volume as a percentage, 0 to 100.
    pub audio_volume: u32,
    pub graphics_quality: String,
}

/// The client-side orchestrator: single owner of the connection state, the
/// player profile, the signaling-channel state and the pending-sync queue.
pub struct NetworkManager {
    pub connection_state: ConnectionState,
    pub current_player: Option<PlayerProfile>,
    /// State of the signaling channel; the live channel ends (socket halves,
    /// queues) are held by the host program.
    pub channel: ChannelState,
    pub sync_queue: VecDeque<PendingSync>,
    pub base_url: String,
    pub websocket_url: String,
    /// Token of the login attempt currently awaited; results carrying any
    /// other token are stale and discarded.  Zero means no attempt yet.
    pub login_token: u64,
    /// Match ids whose handoff has already been initiated, in order of
    /// arrival; used to make `match_found` idempotent.
    pub handed_off: Vec<u64>,
}

impl NetworkManager {
    /// Online for the purpose of queue and sync operations: `Online` or
    /// currently `Syncing`.
    pub open spec fn spec_is_online(self) -> bool {
        self.connection_state == ConnectionState::Online
            || self.connection_state == ConnectionState::Syncing
    }

    pub fn is_online(&self) -> (r: bool)
        ensures
            r == self.spec_is_online(),
    {
        matches!(self.connection_state, ConnectionState::Online | ConnectionState::Syncing)
    }

    /// Enqueue an action for later reconciliation.  The queue is FIFO: the
    /// new entry goes to the back with a fresh retry counter.
    pub fn queue_sync(&mut self, action: SyncAction, now_secs: u64)
        ensures
            final(self).sync_queue@ == old(self).sync_queue@.push(
                PendingSync { action: action, timestamp: now_secs, retry_count: 0 }),
            final(self).connection_state == old(self).connection_state,
            final(self).current_player == old(self).current_player,
            final(self).channel == old(self).channel,
            final(self).handed_off@ == old(self).handed_off@,
            final(self).login_token == old(self).login_token,
            final(self).base_url == old(self).base_url,
            final(self).websocket_url == old(self).websocket_url,
    {
        let pending_sync = PendingSync { action, timestamp: now_secs, retry_count: 0 };
        self.sync_queue.push_back(pending_sync);
    }

    /// The host program reports that the channel ends are wired up: the
    /// channel is now connected and the session is online.
    pub fn set_websocket_channels(&mut self)
        ensures
            final(self).channel == ChannelState::Connected,
            final(self).connection_state == ConnectionState::Online,
            final(self).current_player == old(self).current_player,
            final(self).sync_queue@ == old(self).sync_queue@,
            final(self).handed_off@ == old(self).handed_off@,
            final(self).login_token == old(self).login_token,
            final(self).base_url == old(self).base_url,
            final(self).websocket_url == old(self).websocket_url,
    {
        self.channel = ChannelState::Connected;
        self.connection_state = ConnectionState::Online;
    }

    /// Hand a command to the signaling channel.  Succeeds — returning the
    /// command for the channel to transmit — exactly when the channel is
    /// connected; otherwise nothing is sent and the error says so.
    pub fn send_websocket_message(&self, message: OutboundCommand) -> (r: Result<
        OutboundCommand,
        String,
    >)
        ensures
            self.channel == ChannelState::Connected ==> r == Ok::<OutboundCommand, String>(
                message),
            self.channel != ChannelState::Connected ==> (r matches Err(e)
                && e@ == "WebSocket not connected"@),
    {
        if matches!(self.channel, ChannelState::Connected) {
            Ok(message)
        } else {
            Err(String::from_str("WebSocket not connected"))
        }
    }

    /// Drop the channel ends and go offline.
    pub fn disconnect_websocket(&mut self)
        ensures
            final(self).channel == ChannelState::Disconnected,
            final(self).connection_state == ConnectionState::Offline,
            final(self).current_player == old(self).current_player,
            final(self).sync_queue@ == old(self).sync_queue@,
            final(self).handed_off@ == old(self).handed_off@,
            final(self).login_token == old(self).login_token,
            final(self).base_url == old(self).base_url,
            final(self).websocket_url == old(self).websocket_url,
    {
        self.channel = ChannelState::Disconnected;
        self.connection_state = ConnectionState::Offline;
    }

    /// Store the authenticated player's profile; any previous profile is
    /// replaced, so at most one is ever set.
    pub fn set_current_player(&mut self, player_profile: PlayerProfile)
        ensures
            final(self).current_player == Some(player_profile),
            final(self).connection_state == old(self).connection_state,
            final(self).channel == old(self).channel,
            final(self).sync_queue@ == old(self).sync_queue@,
            final(self).handed_off@ == old(self).handed_off@,
            final(self).login_token == old(self).login_token,
            final(self).base_url == old(self).base_url,
            final(self).websocket_url == old(self).websocket_url,
    {
        self.current_player = Some(player_profile);
    }

    /// Clear the session identity and go offline.
    pub fn clear_current_player(&mut self)
        ensures
            final(self).current_player is None,
            final(self).connection_state == ConnectionState::Offline,
            final(self).channel == old(self).channel,
            final(self).sync_queue@ == old(self).sync_queue@,
            final(self).handed_off@ == old(self).handed_off@,
            final(self).login_token == old(self).login_token,
            final(self).base_url == old(self).base_url,
            final(self).websocket_url == old(self).websocket_url,
    {
        self.current_player = None;
        self.connection_state = ConnectionState::Offline;
    }

    pub fn get_player_id(&self) -> (r: Option<u64>)
        ensures
            match self.current_player {
                Some(p) => r == Some(p.user_id),
                None => r is None,
            },
    {
        match &self.current_player {
            Some(p) => Some(p.user_id),
            None => None,
        }
    }

    pub fn get_jwt_token(&self) -> (r: Option<&str>)
        ensures
            r is Some <==> self.current_player is Some,
            self.current_player matches Some(p) ==> r matches Some(s) && s@ == p.jwt_token@,
    {
        match &self.current_player {
            Some(p) => Some(p.jwt_token.as_str()),
            None => None,
        }
    }

    pub fn is_logged_in(&self) -> (r: bool)
        ensures
            r == (self.current_player is Some),
    {
        self.current_player.is_some()
    }
}

impl Default for NetworkManager {
    /// A fresh session: offline, no identity, channel down, empty sync
    /// queue, default service endpoints.
    fn default() -> (r: Self)
        ensures
            r.connection_state == ConnectionState::Offline,
            r.current_player is None,
            r.channel == ChannelState::Disconnected,
            r.sync_queue@ == Seq::<PendingSync>::empty(),
            r.base_url@ == "http://localhost:3333"@,
            r.websocket_url@ == "ws://localhost:3334"@,
            r.login_token == 0,
            r.handed_off@ == Seq::<u64>::empty(),
    {
        NetworkManager {
            connection_state: ConnectionState::Offline,
            current_player: None,
            channel: ChannelState::Disconnected,
            sync_queue: VecDeque::new(),
            base_url: String::from_str("http://localhost:3333"),
            websocket_url: String::from_str("ws://localhost:3334"),
            login_token: 0,
            handed_off: Vec::new(),
        }
    }
}

} // verus!
