//! The client connection state machine: the orchestrator's step functions.
//!
//! Each function here applies one request or one asynchronous result to the
//! [`NetworkManager`] on a tick boundary and hands back what the host
//! program must do next: a request to issue, a command to transmit, or a
//! notification for the presentation layer.  The host performs the I/O and
//! feeds the outcome back in; every decision in between is verified.

use vstd::prelude::*;
use vstd::string::StringExecFns;

use crate::channel::{ChannelState, OutboundCommand};
use crate::events::{ConnectWebSocketRequested, ConnectionEstablished, ConnectionLost,
    GameMode, LoginCompleted, LoginRequest, LoginRequested, LoginResponse, LogoutCompleted,
    MatchFound, NetworkError, QueueJoinResponse, QueueJoined, QueueLeft, QueueRequest,
    SyncCompleted};
use crate::events::game_mode_wire;
use crate::frames::WebSocketMessage;
use crate::manager::{ConnectionState, NetworkManager, PendingSync, PlayerProfile};

verus! {

/// Suggested delay, in seconds, before reconnecting after a lost connection.
pub const DEFAULT_RETRY_SECS: u64 = 5;

/// What a queue join or leave request came to.
#[derive(Clone, Debug, PartialEq, Eq)]
pub enum QueueAttempt {
    /// The command to transmit on the signaling channel.
    Send(OutboundCommand),
    /// No channel is connected yet: issue this HTTP request instead.
    SendHttp(QueueRequest),
    /// The request was refused; the error is recoverable and the connection
    /// state is untouched.
    Rejected(NetworkError),
}

/// What a sync request came to.
#[derive(Clone, Debug, PartialEq, Eq)]
pub enum SyncStart {
    /// A round began; flush the entry at the front of the queue.
    Started,
    /// Nothing was pending, so the round completed immediately.
    Finished(SyncCompleted),
    /// A round is already running; new actions stay queued until it ends.
    AlreadySyncing,
    /// Not online; nothing changed.
    Rejected(NetworkError),
}

/// A typed outward notification for the presentation layer.
#[derive(Clone, Debug, PartialEq, Eq)]
pub enum Notification {
    ConnectionEstablished(ConnectionEstablished),
    QueueJoinResponse(QueueJoinResponse),
    QueueJoined(QueueJoined),
    QueueLeft(QueueLeft),
    MatchFound(MatchFound),
    QueueCancelled { reason: String },
    ConnectionLost(ConnectionLost),
    UnknownMessage { message_type: String },
}

/// One idempotent connect-request step of the signaling channel: a request
/// while an attempt is live (`Connecting` or `Connected`) is a no-op.
pub open spec fn connect_step(c: ChannelState) -> (ChannelState, bool) {
    if c.is_active() {
        (c, false)
    } else {
        (ChannelState::Connecting, true)
    }
}

/// One `match_found` step over the set of match ids already handed off:
/// a fresh id is recorded and fires the handoff; a known id fires nothing.
pub open spec fn match_found_step(handed: Seq<u64>, id: u64) -> (Seq<u64>, bool) {
    if handed.contains(id) {
        (handed, false)
    } else {
        (handed.push(id), true)
    }
}

/// The queue after one sync round trip: the front entry is removed exactly
/// when the round succeeded; otherwise it stays, with its retry counter
/// incremented by one.
pub open spec fn sync_outcome_step(q: Seq<PendingSync>, success: bool) -> Seq<PendingSync>
    recommends
        q.len() > 0,
{
    if success {
        q.drop_first()
    } else {
        q.update(0, PendingSync {
            action: q[0].action,
            timestamp: q[0].timestamp,
            retry_count: (q[0].retry_count + 1) as u32,
        })
    }
}

/// The manager and websocket request after a login result is applied.  A
/// result whose token does not match the attempt currently awaited is stale
/// and discarded.
pub open spec fn login_apply_step(m: NetworkManager, token: u64, c: LoginCompleted) -> (
    NetworkManager,
    Option<ConnectWebSocketRequested>,
) {
    if token != m.login_token {
        (m, None)
    } else if c.success && c.player_profile is Some {
        (
            NetworkManager {
                connection_state: ConnectionState::Online,
                current_player: c.player_profile,
                ..m
            },
            Some(ConnectWebSocketRequested { jwt_token: c.player_profile->Some_0.jwt_token }),
        )
    } else {
        (
            NetworkManager {
                connection_state: ConnectionState::Offline,
                current_player: None,
                ..m
            },
            None,
        )
    }
}

/// Translate the HTTP login response into the login notification: a profile
/// on success (with the default derived stats the backend does not supply),
/// the backend's message on refusal, and an explicit error when a successful
/// response carries no player data.
pub fn login_completed_of_response(response: LoginResponse) -> (r: LoginCompleted)
    ensures
        match response.data {
            Some(data) => if response.success {
                r == (LoginCompleted {
                    success: true,
                    player_profile: Some(PlayerProfile {
                        jwt_token: data.token,
                        user_id: data.player_id,
                        username: data.username,
                        level: 1,
                        elo: 1000,
                    }),
                    error: None,
                })
            } else {
                r == (LoginCompleted {
                    success: false,
                    player_profile: None,
                    error: Some(response.message),
                })
            },
            None => {
                &&& r.success == false
                &&& r.player_profile is None
                &&& if response.success {
                    r.error matches Some(e) && e@ == "Login response missing data"@
                } else {
                    r.error == Some(response.message)
                }
            },
        },
{
    if response.success {
        match response.data {
            Some(data) => LoginCompleted {
                success: true,
                player_profile: Some(PlayerProfile {
                    jwt_token: data.token,
                    user_id: data.player_id,
                    username: data.username,
                    level: 1,
                    elo: 1000,
                }),
                error: None,
            },
            None => LoginCompleted {
                success: false,
                player_profile: None,
                error: Some(String::from_str("Login response missing data")),
            },
        }
    } else {
        LoginCompleted { success: false, player_profile: None, error: Some(response.message) }
    }
}

/// The login notification for a request that never produced a response
/// (transport failure, unparsable body): a failure carrying the reason.
pub fn login_completed_failure(error: String) -> (r: LoginCompleted)
    ensures
        r == (LoginCompleted { success: false, player_profile: None, error: Some(error) }),
{
    LoginCompleted { success: false, player_profile: None, error: Some(error) }
}

/// True exactly when the vector holds the id.
fn contains_u64(v: &Vec<u64>, x: u64) -> (r: bool)
    ensures
        r == v@.contains(x),
{
    let mut i: usize = 0;
    while i < v.len()
        invariant
            i <= v.len(),
            forall|j: int| 0 <= j < i ==> v@[j] != x,
        decreases v.len() - i,
    {
        if v[i] == x {
            return true;
        }
        i = i + 1;
    }
    false
}

impl NetworkManager {
    /// A login was requested: the session starts connecting and the host
    /// program must issue the returned HTTP request, tagged with the
    /// returned token so a superseded attempt's result can be recognized as
    /// stale.
    pub fn begin_login(&mut self, req: LoginRequested) -> (r: (u64, LoginRequest))
        requires
            old(self).login_token < u64::MAX,
        ensures
            final(self).connection_state == ConnectionState::Connecting,
            final(self).login_token == old(self).login_token + 1,
            r.0 == final(self).login_token,
            r.1 == (LoginRequest { username: req.username, password: req.password }),
            final(self).current_player == old(self).current_player,
            final(self).channel == old(self).channel,
            final(self).sync_queue@ == old(self).sync_queue@,
            final(self).handed_off@ == old(self).handed_off@,
            final(self).base_url == old(self).base_url,
            final(self).websocket_url == old(self).websocket_url,
    {
        self.connection_state = ConnectionState::Connecting;
        self.login_token = self.login_token + 1;
        (self.login_token, LoginRequest { username: req.username, password: req.password })
    }

    /// Apply the outcome of a login attempt.  A stale result (token
    /// mismatch) is discarded without a trace; a fresh success stores the
    /// profile, goes online and asks for the signaling channel to connect
    /// with the new token; a fresh failure clears any profile and returns
    /// the session to `Offline`.
    pub fn apply_login_completed(&mut self, token: u64, completed: LoginCompleted) -> (r:
        Option<ConnectWebSocketRequested>)
        ensures
            (*final(self), r) == login_apply_step(*old(self), token, completed),
    {
        if token != self.login_token {
            return None;
        }
        if completed.success {
            match completed.player_profile {
                Some(profile) => {
                    let jwt = profile.jwt_token.clone();
                    self.current_player = Some(profile);
                    self.connection_state = ConnectionState::Online;
                    Some(ConnectWebSocketRequested { jwt_token: jwt })
                },
                None => {
                    self.current_player = None;
                    self.connection_state = ConnectionState::Offline;
                    None
                },
            }
        } else {
            self.current_player = None;
            self.connection_state = ConnectionState::Offline;
            None
        }
    }

    /// Logout: clear the identity, close the signaling channel, go offline.
    /// Pending sync entries stay queued for the next session.
    pub fn handle_logout(&mut self) -> (r: LogoutCompleted)
        ensures
            final(self).connection_state == ConnectionState::Offline,
            final(self).current_player is None,
            final(self).channel == ChannelState::Disconnected,
            final(self).sync_queue@ == old(self).sync_queue@,
            final(self).handed_off@ == old(self).handed_off@,
            final(self).login_token == old(self).login_token,
            final(self).base_url == old(self).base_url,
            final(self).websocket_url == old(self).websocket_url,
            r == LogoutCompleted,
    {
        self.clear_current_player();
        self.disconnect_websocket();
        LogoutCompleted
    }

    /// A request to connect the signaling channel.  Idempotent: while an
    /// attempt is live (`Connecting` or `Connected`) the request is a no-op
    /// and nothing is spawned; otherwise the attempt starts and the host
    /// program must open the socket.
    pub fn handle_connect_websocket(&mut self, req: &ConnectWebSocketRequested) -> (started:
        bool)
        ensures
            (final(self).channel, started) == connect_step(old(self).channel),
            started ==> final(self).connection_state == ConnectionState::Connecting,
            !started ==> final(self).connection_state == old(self).connection_state,
            final(self).current_player == old(self).current_player,
            final(self).sync_queue@ == old(self).sync_queue@,
            final(self).handed_off@ == old(self).handed_off@,
            final(self).login_token == old(self).login_token,
            final(self).base_url == old(self).base_url,
            final(self).websocket_url == old(self).websocket_url,
    {
        if matches!(self.channel, ChannelState::Connecting | ChannelState::Connected) {
            false
        } else {
            self.channel = ChannelState::Connecting;
            self.connection_state = ConnectionState::Connecting;
            true
        }
    }

    /// The connect attempt failed: the channel is down, the session is
    /// offline, and the presentation layer gets a recoverable error.
    pub fn websocket_connect_failed(&mut self, error: String) -> (r: NetworkError)
        ensures
            final(self).channel == ChannelState::Disconnected,
            final(self).connection_state == ConnectionState::Offline,
            final(self).current_player == old(self).current_player,
            final(self).sync_queue@ == old(self).sync_queue@,
            final(self).handed_off@ == old(self).handed_off@,
            final(self).login_token == old(self).login_token,
            final(self).base_url == old(self).base_url,
            final(self).websocket_url == old(self).websocket_url,
            r == (NetworkError { error: error, recoverable: true }),
    {
        self.channel = ChannelState::Disconnected;
        self.connection_state = ConnectionState::Offline;
        NetworkError { error, recoverable: true }
    }

    /// The read loop ended (close frame or I/O error): the channel is down,
    /// the session is offline, and the notification carries the reason and
    /// the suggested retry delay.  Reconnecting is the host's decision; the
    /// channel never reconnects on its own.
    pub fn websocket_connection_lost(&mut self, reason: String) -> (r: ConnectionLost)
        ensures
            final(self).channel == ChannelState::Disconnected,
            final(self).connection_state == ConnectionState::Offline,
            final(self).current_player == old(self).current_player,
            final(self).sync_queue@ == old(self).sync_queue@,
            final(self).handed_off@ == old(self).handed_off@,
            final(self).login_token == old(self).login_token,
            final(self).base_url == old(self).base_url,
            final(self).websocket_url == old(self).websocket_url,
            r == (ConnectionLost { reason: reason, retry_in_secs: DEFAULT_RETRY_SECS }),
    {
        self.channel = ChannelState::Disconnected;
        self.connection_state = ConnectionState::Offline;
        ConnectionLost { reason, retry_in_secs: DEFAULT_RETRY_SECS }
    }

    /// A join-queue request.  Rejected with a recoverable error whenever the
    /// session is not online; sent over the signaling channel when one is
    /// connected; otherwise issued as the HTTP fallback, carrying the
    /// requested mode and the player's id.  The connection state never
    /// changes.
    pub fn handle_join_queue(&self, game_mode: GameMode) -> (r: QueueAttempt)
        ensures
            !self.spec_is_online() ==> (r matches QueueAttempt::Rejected(e) && e.recoverable
                && e.error@ == "Cannot join queue while offline"@),
            self.spec_is_online() && self.channel == ChannelState::Connected ==> r
                == QueueAttempt::Send(OutboundCommand::QueueJoin),
            self.spec_is_online() && self.channel != ChannelState::Connected ==> match self
                .current_player {
                Some(p) => r matches QueueAttempt::SendHttp(q) && q.game_mode@
                    == game_mode_wire(game_mode) && q.player_id == p.user_id,
                None => r matches QueueAttempt::Rejected(e) && e.recoverable && e.error@
                    == "Failed to join queue: "@ + "WebSocket not connected"@,
            },
    {
        if !self.is_online() {
            return QueueAttempt::Rejected(NetworkError {
                error: String::from_str("Cannot join queue while offline"),
                recoverable: true,
            });
        }
        match self.send_websocket_message(OutboundCommand::QueueJoin) {
            Ok(cmd) => QueueAttempt::Send(cmd),
            Err(e) => match &self.current_player {
                Some(p) => QueueAttempt::SendHttp(QueueRequest {
                    game_mode: game_mode.wire_name(),
                    player_id: p.user_id,
                }),
                None => QueueAttempt::Rejected(NetworkError {
                    error: String::from_str("Failed to join queue: ").concat(e.as_str()),
                    recoverable: true,
                }),
            },
        }
    }

    /// A leave-queue request.  Rejected with a recoverable error while not
    /// online; otherwise like a join request with the leave command.
    pub fn handle_leave_queue(&self) -> (r: QueueAttempt)
        ensures
            !self.spec_is_online() ==> (r matches QueueAttempt::Rejected(e) && e.recoverable
                && e.error@ == "Cannot leave queue while offline"@),
            self.spec_is_online() && self.channel == ChannelState::Connected ==> r
                == QueueAttempt::Send(OutboundCommand::QueueLeave),
            self.spec_is_online() && self.channel != ChannelState::Connected ==> (
            r matches QueueAttempt::Rejected(e) && e.recoverable && e.error@
                == "Failed to leave queue: "@ + "WebSocket not connected"@),
    {
        if !self.is_online() {
            return QueueAttempt::Rejected(NetworkError {
                error: String::from_str("Cannot leave queue while offline"),
                recoverable: true,
            });
        }
        match self.send_websocket_message(OutboundCommand::QueueLeave) {
            Ok(cmd) => QueueAttempt::Send(cmd),
            Err(e) => QueueAttempt::Rejected(NetworkError {
                error: String::from_str("Failed to leave queue: ").concat(e.as_str()),
                recoverable: true,
            }),
        }
    }

    /// A sync-now request.  Rejected while not online; a no-op while a round
    /// is already running (new actions keep queuing but are not flushed);
    /// immediately complete when nothing is pending; otherwise a round
    /// begins and the host flushes the entry at the front of the queue.
    pub fn begin_sync(&mut self) -> (r: SyncStart)
        ensures
            final(self).current_player == old(self).current_player,
            final(self).channel == old(self).channel,
            final(self).sync_queue@ == old(self).sync_queue@,
            final(self).handed_off@ == old(self).handed_off@,
            final(self).login_token == old(self).login_token,
            final(self).base_url == old(self).base_url,
            final(self).websocket_url == old(self).websocket_url,
            old(self).connection_state == ConnectionState::Syncing ==> (r
                == SyncStart::AlreadySyncing && final(self).connection_state == old(
                self).connection_state),
            !old(self).spec_is_online() ==> ((r matches SyncStart::Rejected(e) && e.recoverable
                && e.error@ == "Cannot sync while offline"@) && final(self).connection_state
                == old(self).connection_state),
            old(self).connection_state == ConnectionState::Online && old(self).sync_queue@.len()
                == 0 ==> (r matches SyncStart::Finished(c) && c.success && c.conflicts@.len()
                == 0 && final(self).connection_state == ConnectionState::Online),
            old(self).connection_state == ConnectionState::Online && old(self).sync_queue@.len()
                > 0 ==> (r == SyncStart::Started && final(self).connection_state
                == ConnectionState::Syncing),
    {
        if matches!(self.connection_state, ConnectionState::Syncing) {
            return SyncStart::AlreadySyncing;
        }
        if !self.is_online() {
            return SyncStart::Rejected(NetworkError {
                error: String::from_str("Cannot sync while offline"),
                recoverable: true,
            });
        }
        if self.sync_queue.len() == 0 {
            return SyncStart::Finished(SyncCompleted { success: true, conflicts: Vec::new() });
        }
        self.connection_state = ConnectionState::Syncing;
        SyncStart::Started
    }

    /// The entry the running sync round is flushing: the front of the queue.
    pub fn front_pending(&self) -> (r: Option<&PendingSync>)
        ensures
            self.sync_queue@.len() > 0 ==> (r matches Some(p) && *p == self.sync_queue@[0]),
            self.sync_queue@.len() == 0 ==> r is None,
    {
        if self.sync_queue.len() > 0 {
            Some(&self.sync_queue[0])
        } else {
            None
        }
    }

    /// The round trip for the front entry came back.  On success the entry
    /// is removed; on failure it stays, with its retry counter incremented
    /// by exactly one.  Either way the round is over and the session is back
    /// online.
    pub fn apply_sync_outcome(&mut self, success: bool) -> (r: SyncCompleted)
        requires
            old(self).connection_state == ConnectionState::Syncing,
            old(self).sync_queue@.len() > 0,
            old(self).sync_queue@[0].retry_count < u32::MAX,
        ensures
            final(self).sync_queue@ == sync_outcome_step(old(self).sync_queue@, success),
            final(self).connection_state == ConnectionState::Online,
            final(self).current_player == old(self).current_player,
            final(self).channel == old(self).channel,
            final(self).handed_off@ == old(self).handed_off@,
            final(self).login_token == old(self).login_token,
            final(self).base_url == old(self).base_url,
            final(self).websocket_url == old(self).websocket_url,
            r.success == success,
            r.conflicts@.len() == 0,
    {
        if success {
            self.sync_queue.pop_front();
        } else {
            let front = self.sync_queue.pop_front();
            match front {
                Some(entry) => {
                    let updated = PendingSync {
                        action: entry.action,
                        timestamp: entry.timestamp,
                        retry_count: entry.retry_count + 1,
                    };
                    self.sync_queue.push_front(updated);
                    proof {
                        assert(self.sync_queue@ =~= sync_outcome_step(
                            old(self).sync_queue@, success));
                    }
                },
                None => (),
            }
        }
        self.connection_state = ConnectionState::Online;
        SyncCompleted { success, conflicts: Vec::new() }
    }

    /// Apply one decoded inbound frame.  Only the `match_found` bookkeeping
    /// can change the manager: a fresh match id is recorded and fires the
    /// handoff notification exactly once; a repeated id fires nothing.
    /// `Invalid` frames are dropped here (the connection stays open), and
    /// unknown discriminators surface as a notification so the host can log
    /// them.
    pub fn handle_inbound(&mut self, msg: WebSocketMessage) -> (r: Option<Notification>)
        ensures
            final(self).connection_state == old(self).connection_state,
            final(self).current_player == old(self).current_player,
            final(self).channel == old(self).channel,
            final(self).sync_queue@ == old(self).sync_queue@,
            final(self).login_token == old(self).login_token,
            final(self).base_url == old(self).base_url,
            final(self).websocket_url == old(self).websocket_url,
            match msg {
                WebSocketMessage::ConnectionSuccess { message } => final(self).handed_off@ == old(
                    self).handed_off@ && r == Some(Notification::ConnectionEstablished(
                    ConnectionEstablished { message })),
                WebSocketMessage::QueueJoinResponse { success, message } => final(self).handed_off@
                    == old(self).handed_off@ && r == Some(Notification::QueueJoinResponse(
                    QueueJoinResponse { success, message })),
                WebSocketMessage::QueueJoined { estimated_wait_time } => final(self).handed_off@
                    == old(self).handed_off@ && r == Some(Notification::QueueJoined(
                    QueueJoined { estimated_wait_time })),
                WebSocketMessage::QueueLeft => final(self).handed_off@ == old(self).handed_off@
                    && r == Some(Notification::QueueLeft(QueueLeft)),
                WebSocketMessage::MatchFound(p) => {
                    let (h, fired) = match_found_step(old(self).handed_off@, p.match_id);
                    &&& final(self).handed_off@ == h
                    &&& fired ==> r == Some(Notification::MatchFound(p))
                    &&& !fired ==> r is None
                },
                WebSocketMessage::QueueCancelled { reason } => final(self).handed_off@ == old(
                    self).handed_off@ && r == Some(Notification::QueueCancelled { reason }),
                WebSocketMessage::Error { message } => final(self).handed_off@ == old(
                    self).handed_off@ && r == Some(Notification::ConnectionLost(
                    ConnectionLost { reason: message, retry_in_secs: DEFAULT_RETRY_SECS })),
                WebSocketMessage::Unknown { message_type } => final(self).handed_off@ == old(
                    self).handed_off@ && r == Some(Notification::UnknownMessage { message_type }),
                WebSocketMessage::Invalid => final(self).handed_off@ == old(self).handed_off@
                    && r is None,
            },
    {
        match msg {
            WebSocketMessage::ConnectionSuccess { message } => Some(
                Notification::ConnectionEstablished(ConnectionEstablished { message })),
            WebSocketMessage::QueueJoinResponse { success, message } => Some(
                Notification::QueueJoinResponse(QueueJoinResponse { success, message })),
            WebSocketMessage::QueueJoined { estimated_wait_time } => Some(
                Notification::QueueJoined(QueueJoined { estimated_wait_time })),
            WebSocketMessage::QueueLeft => Some(Notification::QueueLeft(QueueLeft)),
            WebSocketMessage::MatchFound(p) => {
                if contains_u64(&self.handed_off, p.match_id) {
                    None
                } else {
                    self.handed_off.push(p.match_id);
                    Some(Notification::MatchFound(p))
                }
            },
            WebSocketMessage::QueueCancelled { reason } => Some(
                Notification::QueueCancelled { reason }),
            WebSocketMessage::Error { message } => Some(Notification::ConnectionLost(
                ConnectionLost { reason: message, retry_in_secs: DEFAULT_RETRY_SECS })),
            WebSocketMessage::Unknown { message_type } => Some(
                Notification::UnknownMessage { message_type }),
            WebSocketMessage::Invalid => None,
        }
    }
}

/// Law: a failed login attempt — matching the attempt currently awaited —
/// never leaves a stale profile: afterwards no profile is set.
pub proof fn lemma_failed_login_clears_profile(
    m: NetworkManager,
    token: u64,
    c: LoginCompleted,
)
    requires
        token == m.login_token,
        !c.success || c.player_profile is None,
    ensures
        login_apply_step(m, token, c).0.current_player is None,
{
}

/// Law: at most one profile is ever set at a time — after a successful
/// login the profile is exactly the one the response carried, replacing
/// whatever was set before.
pub proof fn lemma_login_sets_exactly_response_profile(
    m: NetworkManager,
    token: u64,
    c: LoginCompleted,
)
    requires
        token == m.login_token,
        c.success,
        c.player_profile is Some,
    ensures
        login_apply_step(m, token, c).0.current_player == c.player_profile,
{
}

/// Law: connect requests are idempotent.  After any connect step an attempt
/// is live, so a second request in any reachable state changes nothing and
/// starts nothing — there is never more than one live attempt per session.
pub proof fn lemma_connect_request_idempotent(c: ChannelState)
    ensures
        connect_step(c).0.is_active(),
        connect_step(connect_step(c).0) == (connect_step(c).0, false),
{
}

/// Law: a `match_found` with a given id fires the handoff exactly once even
/// if delivered twice: the first delivery fires exactly when the id is
/// fresh, and afterwards the id is recorded, so the second delivery never
/// fires and records nothing new.
pub proof fn lemma_match_found_handoff_once(handed: Seq<u64>, id: u64)
    ensures
        match_found_step(handed, id).1 == !handed.contains(id),
        match_found_step(handed, id).0.contains(id),
        match_found_step(match_found_step(handed, id).0, id) == (
            match_found_step(handed, id).0,
            false,
        ),
{
    if !handed.contains(id) {
        assert(handed.push(id)[handed.len() as int] == id);
    }
}

/// Law: a pending sync entry is removed from the queue if and only if its
/// round trip reported success; on failure it remains at its place with its
/// retry counter incremented by exactly one and every other entry untouched.
pub proof fn lemma_sync_round_trip(q: Seq<PendingSync>, success: bool)
    requires
        q.len() > 0,
        q[0].retry_count < u32::MAX,
    ensures
        success ==> sync_outcome_step(q, success) == q.drop_first(),
        !success ==> {
            let q2 = sync_outcome_step(q, success);
            &&& q2.len() == q.len()
            &&& q2[0].action == q[0].action
            &&& q2[0].timestamp == q[0].timestamp
            &&& q2[0].retry_count == q[0].retry_count + 1
            &&& forall|i: int| 1 <= i < q.len() ==> q2[i] == q[i]
        },
{
}

} // verus!
