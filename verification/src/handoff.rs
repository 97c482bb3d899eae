//! The handoff protocol: turning a match-found result into authoritative-
//! transport connection parameters on the client.
//!
//! The match-found payload is immutable once received and is consumed
//! exactly once per match id (see [`crate::session`]); here it is translated
//! into the peer address, the per-client local binding and the
//! authentication descriptor the transport needs.

use vstd::prelude::*;
use vstd::arithmetic::div_mod::lemma_add_mod_noop;
use vstd::string::StringExecFns;

verus! {

/// Protocol version id that must match between client and server.
pub const PROTOCOL_ID: u64 = 15;

/// Base of the per-client local port range; the client id is folded in to
/// avoid port conflicts between clients on one host.
pub const CLIENT_PORT_BASE: u64 = 9000;

/// Connection details of the game server assigned by matchmaking.
#[derive(Clone, Debug, PartialEq, Eq)]
pub struct GameServerInfo {
    pub match_id: u64,
    pub server_host: String,
    pub server_port: u16,
    /// One-time shared value scoped to this match; not the login token.
    pub server_secret: String,
}

/// Match-found result handed from the channel's read loop to the tick loop,
/// consumed by polling.
#[derive(Debug, PartialEq, Eq)]
pub struct MatchFoundStatus {
    pub pending_match: Option<GameServerInfo>,
}

impl MatchFoundStatus {
    /// The read loop stores the assignment for the tick loop to pick up.
    pub fn publish(&mut self, info: GameServerInfo)
        ensures
            final(self).pending_match == Some(info),
    {
        self.pending_match = Some(info);
    }

    /// Take the pending assignment, if any; a second poll finds nothing, so
    /// the assignment is consumed at most once.
    pub fn poll(&mut self) -> (r: Option<GameServerInfo>)
        ensures
            r == old(self).pending_match,
            final(self).pending_match is None,
    {
        self.pending_match.take()
    }
}

impl Default for MatchFoundStatus {
    fn default() -> (r: Self)
        ensures
            r.pending_match is None,
    {
        MatchFoundStatus { pending_match: None }
    }
}

/// Session-scoped networking state of the presentation client: created on
/// app start, reset on logout.
pub struct NetworkingState {
    pub is_connected: bool,
    pub auth_token: Option<String>,
    pub player_id: Option<String>,
    pub server_url: String,
    pub game_server: Option<GameServerInfo>,
}

impl NetworkingState {
    pub fn new() -> (r: Self)
        ensures
            !r.is_connected,
            r.auth_token is None,
            r.player_id is None,
            r.server_url@ == "http://localhost:3333"@,
            r.game_server is None,
    {
        NetworkingState {
            is_connected: false,
            auth_token: None,
            player_id: None,
            server_url: String::from_str("http://localhost:3333"),
            game_server: None,
        }
    }

    /// Authentication succeeded: remember the token and the player id.
    pub fn authenticated(&mut self, auth_token: String, player_id: String)
        ensures
            final(self).is_connected,
            final(self).auth_token == Some(auth_token),
            final(self).player_id == Some(player_id),
            final(self).server_url == old(self).server_url,
            final(self).game_server == old(self).game_server,
    {
        self.is_connected = true;
        self.auth_token = Some(auth_token);
        self.player_id = Some(player_id);
    }

    /// Matchmaking produced a server assignment to connect to.
    pub fn store_game_server(&mut self, info: GameServerInfo)
        ensures
            final(self).game_server == Some(info),
            final(self).is_connected == old(self).is_connected,
            final(self).auth_token == old(self).auth_token,
            final(self).player_id == old(self).player_id,
            final(self).server_url == old(self).server_url,
    {
        self.game_server = Some(info);
    }
}

impl Default for NetworkingState {
    fn default() -> (r: Self)
        ensures
            !r.is_connected,
            r.auth_token is None,
            r.player_id is None,
            r.server_url@ == "http://localhost:3333"@,
            r.game_server is None,
    {
        NetworkingState::new()
    }
}

/// Everything the authoritative transport needs to connect: peer address
/// parts, the local binding, and the authentication descriptor.
#[derive(Clone, Debug, PartialEq, Eq)]
pub struct ConnectionParams {
    pub server_host: String,
    pub server_port: u16,
    pub client_port: u16,
    pub client_id: u64,
    pub server_secret: String,
    pub protocol_id: u64,
}

pub open spec fn is_digit(c: char) -> bool {
    48 <= c as int && c as int <= 57
}

pub open spec fn digit_val(c: char) -> int {
    c as int - 48
}

pub open spec fn all_digits(s: Seq<char>) -> bool {
    forall|i: int| 0 <= i < s.len() ==> is_digit(s[i])
}

/// The number a sequence of decimal digits denotes.
pub open spec fn dec_value(s: Seq<char>) -> int
    decreases s.len(),
{
    if s.len() <= 0 {
        0
    } else {
        dec_value(s.drop_last()) * 10 + digit_val(s.last())
    }
}

proof fn lemma_dec_value_nonneg(s: Seq<char>)
    requires
        all_digits(s),
    ensures
        dec_value(s) >= 0,
    decreases s.len(),
{
    if s.len() > 0 {
        assert(all_digits(s.drop_last()));
        lemma_dec_value_nonneg(s.drop_last());
    }
}

/// Reading one more digit can only grow the value.
proof fn lemma_dec_value_monotone(s: Seq<char>, i: int, j: int)
    requires
        all_digits(s),
        0 <= i <= j <= s.len(),
    ensures
        dec_value(s.take(i)) <= dec_value(s.take(j)),
    decreases j - i,
{
    if i < j {
        lemma_dec_value_monotone(s, i, j - 1);
        let t = s.take(j);
        assert(t.drop_last() =~= s.take(j - 1));
        assert(all_digits(s.take(j - 1)));
        lemma_dec_value_nonneg(s.take(j - 1));
        assert(dec_value(s.take(j)) == dec_value(s.take(j - 1)) * 10 + digit_val(s[j - 1]));
    }
}

/// Parse a non-empty string of decimal digits.  Returns the denoted number
/// exactly when the string is non-empty, holds digits only, and the number
/// fits in a `u64`.
pub fn parse_u64(s: &str) -> (r: Option<u64>)
    ensures
        r is Some <==> s@.len() > 0 && all_digits(s@) && dec_value(s@) <= u64::MAX,
        r matches Some(n) ==> n == dec_value(s@),
{
    let n = s.unicode_len();
    if n == 0 {
        return None;
    }
    let mut acc: u64 = 0;
    let mut i: usize = 0;
    while i < n
        invariant
            0 <= i <= n,
            n == s@.len(),
            forall|k: int| 0 <= k < i ==> is_digit(s@[k]),
            acc == dec_value(s@.take(i as int)),
        decreases n - i,
    {
        let c = s.get_char(i);
        let cu = c as u32;
        if cu < 48 || cu > 57 {
            proof {
                assert(!is_digit(s@[i as int]));
            }
            return None;
        }
        let d: u64 = ((cu - 48) as u64);
        proof {
            assert(s@.take(i + 1).drop_last() =~= s@.take(i as int));
            assert(s@.take(i + 1).last() == s@[i as int]);
            assert(dec_value(s@.take(i + 1)) == acc * 10 + d);
        }
        if acc > (u64::MAX - d) / 10 {
            proof {
                assert(acc * 10 + d > u64::MAX) by {
                    vstd::arithmetic::div_mod::lemma_fundamental_div_mod(
                        (u64::MAX - d) as int, 10);
                }
                if all_digits(s@) {
                    lemma_dec_value_monotone(s@, i + 1, s@.len() as int);
                    assert(s@.take(s@.len() as int) =~= s@);
                    assert(dec_value(s@) > u64::MAX);
                }
            }
            return None;
        }
        proof {
            assert(acc * 10 + d <= u64::MAX) by {
                vstd::arithmetic::div_mod::lemma_fundamental_div_mod((u64::MAX - d) as int, 10);
            }
        }
        acc = acc * 10 + d;
        i = i + 1;
    }
    proof {
        assert(s@.take(n as int) =~= s@);
    }
    Some(acc)
}

/// The client id a player-id string denotes; a string that is not a decimal
/// number falls back to client id 1.
pub fn client_id_from(player_id: &str) -> (r: u64)
    ensures
        player_id@.len() > 0 && all_digits(player_id@) && dec_value(player_id@) <= u64::MAX
            ==> r == dec_value(player_id@),
        !(player_id@.len() > 0 && all_digits(player_id@) && dec_value(player_id@) <= u64::MAX)
            ==> r == 1,
{
    match parse_u64(player_id) {
        Some(n) => n,
        None => 1,
    }
}

/// Derive the transport connection parameters from a match assignment: the
/// peer address parts are taken as assigned, the local binding folds the
/// client id into the port base (modulo the port space), and the
/// authentication descriptor carries the client id, the one-time server
/// secret and the fixed protocol version.
pub fn derive_connection_params(info: &GameServerInfo, client_id: u64) -> (r: ConnectionParams)
    ensures
        r.server_host == info.server_host,
        r.server_port == info.server_port,
        r.client_port == ((CLIENT_PORT_BASE + client_id as int) % 0x10000) as u16,
        r.client_id == client_id,
        r.server_secret == info.server_secret,
        r.protocol_id == PROTOCOL_ID,
{
    let folded: u64 = client_id % 0x10000;
    let port64: u64 = (CLIENT_PORT_BASE + folded) % 0x10000;
    proof {
        lemma_add_mod_noop(CLIENT_PORT_BASE as int, client_id as int, 0x10000);
        assert(CLIENT_PORT_BASE as int % 0x10000 == CLIENT_PORT_BASE as int);
    }
    ConnectionParams {
        server_host: info.server_host.clone(),
        server_port: info.server_port,
        client_port: port64 as u16,
        client_id: client_id,
        server_secret: info.server_secret.clone(),
        protocol_id: PROTOCOL_ID,
    }
}

} // verus!
