//! Server-side match lifecycle: authoritative, tick-driven progression of the
//! match phase and authorization of connecting peers.
//!
//! The phase machine is strictly forward-only:
//! `WaitingForPlayers -> MatchStarting -> InProgress -> Completed`.
//! Connected players are assigned positionally from the expected-player list,
//! and the count of connected players never exceeds the expected count.
//!
//! The pair (phase, connected players) must be read and written atomically;
//! it is therefore kept in one struct, which a host program guards with a
//! single mutual-exclusion domain.

use vstd::prelude::*;

verus! {

/// The coarse-grained lifecycle phase of a single match instance.
#[derive(Clone, Copy, Debug, PartialEq, Eq, Structural)]
pub enum GameState {
    WaitingForPlayers,
    MatchStarting,
    InProgress,
    Completed,
}

/// Position of a phase in the forward-only lifecycle order.
pub open spec fn phase_index(s: GameState) -> int {
    match s {
        GameState::WaitingForPlayers => 0,
        GameState::MatchStarting => 1,
        GameState::InProgress => 2,
        GameState::Completed => 3,
    }
}

/// Environment-provided parameters of the match this server instance hosts.
pub struct ServerConfig {
    pub server_secret: String,
    pub match_id: u64,
    pub expected_players: Vec<u64>,
    pub server_port: u16,
    pub backend_url: String,
}

/// What happened to a peer-connect notification.
#[derive(Clone, Copy, Debug, PartialEq, Eq, Structural)]
pub enum ConnectOutcome {
    /// The peer was counted and assigned the next unassigned expected
    /// player id (positional assignment).
    Counted { player_id: u64 },
    /// All expected slots are taken; the peer must not be admitted.
    CapacityExceeded,
}

/// Authoritative tracker of the match phase and the connected players.
pub struct GameStateManager {
    pub state: GameState,
    pub connected_players: Vec<u64>,
}

impl GameStateManager {
    /// The connected players are exactly the first `connected_players.len()`
    /// entries of the expected-player list, in order.
    pub open spec fn positional(self, expected: Seq<u64>) -> bool {
        &&& self.connected_players@.len() <= expected.len()
        &&& self.connected_players@ == expected.take(self.connected_players@.len() as int)
    }

    /// The start transition fires exactly when the match is still waiting and
    /// every expected player is connected.
    pub open spec fn start_fires(self, expected: Seq<u64>) -> bool {
        self.state == GameState::WaitingForPlayers
            && self.connected_players@.len() == expected.len()
    }

    pub fn new() -> (r: Self)
        ensures
            r.state == GameState::WaitingForPlayers,
            r.connected_players@ == Seq::<u64>::empty(),
    {
        GameStateManager { state: GameState::WaitingForPlayers, connected_players: Vec::new() }
    }

    /// A peer connected.  If capacity remains, it is counted and assigned the
    /// next unassigned expected player id in order; otherwise it must be
    /// rejected and nothing changes.
    pub fn handle_new_client(&mut self, expected_players: &Vec<u64>) -> (r: ConnectOutcome)
        ensures
            final(self).state == old(self).state,
            old(self).connected_players@.len() < expected_players@.len() ==> {
                &&& final(self).connected_players@ == old(self).connected_players@.push(
                    expected_players@[old(self).connected_players@.len() as int])
                &&& r == (ConnectOutcome::Counted {
                    player_id: expected_players@[old(self).connected_players@.len() as int],
                })
            },
            old(self).connected_players@.len() >= expected_players@.len() ==> {
                &&& final(self).connected_players@ == old(self).connected_players@
                &&& r == ConnectOutcome::CapacityExceeded
            },
            old(self).positional(expected_players@) ==> final(self).positional(expected_players@),
    {
        let n = self.connected_players.len();
        if n < expected_players.len() {
            let pid = expected_players[n];
            self.connected_players.push(pid);
            proof {
                if old(self).positional(expected_players@) {
                    assert(self.connected_players@ =~= expected_players@.take(
                        self.connected_players@.len() as int));
                }
            }
            ConnectOutcome::Counted { player_id: pid }
        } else {
            ConnectOutcome::CapacityExceeded
        }
    }

    /// A peer disconnected.  The most recently assigned slot is released; a
    /// disconnect with nobody connected changes nothing.  The phase is never
    /// touched, so a late disconnect cannot corrupt a started match.
    pub fn handle_client_disconnect(&mut self)
        ensures
            final(self).state == old(self).state,
            old(self).connected_players@.len() > 0 ==> final(self).connected_players@
                == old(self).connected_players@.drop_last(),
            old(self).connected_players@.len() == 0 ==> final(self).connected_players@
                == old(self).connected_players@,
            forall|expected: Seq<u64>| old(self).positional(expected)
                ==> final(self).positional(expected),
    {
        if self.connected_players.len() > 0 {
            self.connected_players.pop();
            proof {
                assert forall|expected: Seq<u64>| old(self).positional(expected)
                    implies self.positional(expected) by {
                    assert(self.connected_players@ =~= expected.take(
                        old(self).connected_players@.len() - 1));
                }
            }
        }
    }

    /// Checked every tick while waiting: the transition to `MatchStarting`
    /// fires exactly once, and only when the connected count equals the
    /// expected count.
    pub fn check_all_players_connected(&mut self, expected_players: &Vec<u64>) -> (fired: bool)
        ensures
            fired == old(self).start_fires(expected_players@),
            fired ==> final(self).state == GameState::MatchStarting,
            !fired ==> final(self).state == old(self).state,
            final(self).connected_players@ == old(self).connected_players@,
            phase_index(old(self).state) <= phase_index(final(self).state),
    {
        if matches!(self.state, GameState::WaitingForPlayers)
            && self.connected_players.len() == expected_players.len() {
            self.state = GameState::MatchStarting;
            true
        } else {
            false
        }
    }

    /// Run once per tick: on the tick after entering `MatchStarting` the
    /// match-start signal is broadcast (the returned flag) and the phase
    /// advances to `InProgress`.  All other phases are left alone.
    pub fn tick(&mut self) -> (broadcast: bool)
        ensures
            broadcast == (old(self).state == GameState::MatchStarting),
            broadcast ==> final(self).state == GameState::InProgress,
            !broadcast ==> final(self).state == old(self).state,
            final(self).connected_players@ == old(self).connected_players@,
            phase_index(old(self).state) <= phase_index(final(self).state),
    {
        if matches!(self.state, GameState::MatchStarting) {
            self.state = GameState::InProgress;
            true
        } else {
            false
        }
    }

    /// Gameplay systems report the end of the match.  Only a running match
    /// can complete; every other phase, `Completed` included, is left alone,
    /// so `Completed` is a terminal sink.
    pub fn complete_match(&mut self)
        ensures
            old(self).state == GameState::InProgress ==> final(self).state
                == GameState::Completed,
            old(self).state != GameState::InProgress ==> final(self).state == old(self).state,
            final(self).connected_players@ == old(self).connected_players@,
            phase_index(old(self).state) <= phase_index(final(self).state),
    {
        if matches!(self.state, GameState::InProgress) {
            self.state = GameState::Completed;
        }
    }
}

/// Law: positional assignment keeps the connected count within the expected
/// count — `connected <= expected` at every observation point.
pub proof fn lemma_connected_within_expected(m: GameStateManager, expected: Seq<u64>)
    requires
        m.positional(expected),
    ensures
        m.connected_players@.len() <= expected.len(),
{
    assert(m.connected_players@.len() == expected.take(
        m.connected_players@.len() as int).len());
}

/// Law: the start transition fires at most once.  Once the phase has left
/// `WaitingForPlayers` — in particular right after the transition fired — the
/// fire condition is false, whatever the connected count.
pub proof fn lemma_match_start_fires_once(m: GameStateManager, expected: Seq<u64>)
    requires
        m.state != GameState::WaitingForPlayers,
    ensures
        !m.start_fires(expected),
{
}

/// The phase never moves backward between consecutive observations.
pub open spec fn phase_monotonic(states: Seq<GameState>) -> bool {
    forall|k: int| 0 <= k < states.len() - 1 ==> phase_index(#[trigger] states[k])
        <= phase_index(states[k + 1])
}

proof fn lemma_phase_monotone_range(states: Seq<GameState>, i: int, j: int)
    requires
        phase_monotonic(states),
        0 <= i <= j < states.len(),
    ensures
        phase_index(states[i]) <= phase_index(states[j]),
    decreases j - i,
{
    if i < j {
        lemma_phase_monotone_range(states, i, j - 1);
    }
}

/// Law: along any phase-monotonic execution — and every method of
/// [`GameStateManager`] keeps `phase_index` from decreasing — the phase
/// never returns to `WaitingForPlayers` once it has left it.  Together with
/// [`lemma_match_start_fires_once`] this makes the start transition fire at
/// most once over a whole run, however the ticks and peer notifications are
/// interleaved.
pub proof fn lemma_no_return_to_waiting(states: Seq<GameState>, i: int, j: int)
    requires
        phase_monotonic(states),
        0 <= i <= j < states.len(),
        states[i] != GameState::WaitingForPlayers,
    ensures
        states[j] != GameState::WaitingForPlayers,
{
    lemma_phase_monotone_range(states, i, j);
}

} // verus!
