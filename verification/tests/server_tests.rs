use stratking::server::{ConnectOutcome, GameState, GameStateManager, ServerConfig};

#[test]
fn two_player_match_start_scenario() {
    // expected_players = [10, 11]; both connect, then the match starts and
    // runs within the next two ticks.
    let expected = vec![10u64, 11u64];
    let mut gsm = GameStateManager::new();
    assert_eq!(gsm.state, GameState::WaitingForPlayers);

    assert_eq!(gsm.handle_new_client(&expected), ConnectOutcome::Counted { player_id: 10 });
    assert_eq!(gsm.connected_players.len(), 1);
    assert_eq!(gsm.state, GameState::WaitingForPlayers);
    assert!(!gsm.check_all_players_connected(&expected));

    assert_eq!(gsm.handle_new_client(&expected), ConnectOutcome::Counted { player_id: 11 });
    assert_eq!(gsm.connected_players, vec![10, 11]);

    // Tick one: the start transition fires.
    assert!(gsm.check_all_players_connected(&expected));
    assert_eq!(gsm.state, GameState::MatchStarting);
    // It fires exactly once.
    assert!(!gsm.check_all_players_connected(&expected));

    // Tick two: match-start is broadcast and the match runs.
    assert!(gsm.tick());
    assert_eq!(gsm.state, GameState::InProgress);
    assert!(!gsm.tick());
    assert_eq!(gsm.state, GameState::InProgress);
}

#[test]
fn capacity_is_never_exceeded() {
    let expected = vec![10u64, 11u64];
    let mut gsm = GameStateManager::new();
    gsm.handle_new_client(&expected);
    gsm.handle_new_client(&expected);
    // A third peer finds no slot and is not counted.
    assert_eq!(gsm.handle_new_client(&expected), ConnectOutcome::CapacityExceeded);
    assert_eq!(gsm.connected_players.len(), 2);

    // With no expected players at all, nobody is admitted.
    let none: Vec<u64> = vec![];
    let mut empty = GameStateManager::new();
    assert_eq!(empty.handle_new_client(&none), ConnectOutcome::CapacityExceeded);
    assert_eq!(empty.connected_players.len(), 0);
}

#[test]
fn disconnect_releases_the_last_slot() {
    let expected = vec![10u64, 11u64];
    let mut gsm = GameStateManager::new();
    gsm.handle_new_client(&expected);
    gsm.handle_new_client(&expected);
    gsm.handle_client_disconnect();
    assert_eq!(gsm.connected_players, vec![10]);
    // The freed slot is reassigned positionally.
    assert_eq!(gsm.handle_new_client(&expected), ConnectOutcome::Counted { player_id: 11 });

    gsm.handle_client_disconnect();
    gsm.handle_client_disconnect();
    // A disconnect with nobody connected changes nothing.
    gsm.handle_client_disconnect();
    assert_eq!(gsm.connected_players.len(), 0);
}

#[test]
fn disconnect_never_corrupts_phase() {
    let expected = vec![10u64];
    let mut gsm = GameStateManager::new();
    gsm.handle_new_client(&expected);
    gsm.check_all_players_connected(&expected);
    gsm.tick();
    assert_eq!(gsm.state, GameState::InProgress);
    gsm.handle_client_disconnect();
    assert_eq!(gsm.state, GameState::InProgress);
}

#[test]
fn completed_is_a_terminal_sink() {
    let expected = vec![10u64];
    let mut gsm = GameStateManager::new();
    // Completing before the match runs changes nothing.
    gsm.complete_match();
    assert_eq!(gsm.state, GameState::WaitingForPlayers);

    gsm.handle_new_client(&expected);
    gsm.check_all_players_connected(&expected);
    gsm.tick();
    gsm.complete_match();
    assert_eq!(gsm.state, GameState::Completed);

    // Nothing transitions out of Completed.
    gsm.complete_match();
    assert!(!gsm.tick());
    assert!(!gsm.check_all_players_connected(&expected));
    assert_eq!(gsm.state, GameState::Completed);
}

#[test]
fn server_config_holds_match_parameters() {
    let config = ServerConfig {
        server_secret: "HelloWorld".to_string(),
        match_id: 1,
        expected_players: vec![10, 11],
        server_port: 7777,
        backend_url: "http://localhost:3333".to_string(),
    };
    assert_eq!(config.expected_players.len(), 2);
    assert_eq!(config.server_port, 7777);
}
