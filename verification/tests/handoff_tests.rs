use stratking::channel::{
    auth_command, auth_frame, encode_command, escape_json, ws_connect_url, OutboundCommand,
};
use stratking::events::GameMode;
use stratking::handoff::{
    client_id_from, derive_connection_params, parse_u64, GameServerInfo, MatchFoundStatus,
    NetworkingState, CLIENT_PORT_BASE, PROTOCOL_ID,
};

fn server_info() -> GameServerInfo {
    GameServerInfo {
        match_id: 5,
        server_host: "1.2.3.4".to_string(),
        server_port: 7777,
        server_secret: "s".to_string(),
    }
}

#[test]
fn outbound_commands_have_exact_wire_text() {
    assert_eq!(encode_command(&OutboundCommand::QueueJoin), "{\"type\":\"queue_join\"}");
    assert_eq!(encode_command(&OutboundCommand::QueueLeave), "{\"type\":\"queue_leave\"}");
    let custom = OutboundCommand::Custom {
        payload: "{\"type\":\"custom_message\",\"data\":{}}".to_string(),
    };
    assert_eq!(encode_command(&custom), "{\"type\":\"custom_message\",\"data\":{}}");
}

#[test]
fn game_mode_wire_names() {
    assert_eq!(GameMode::Ranked.wire_name(), "ranked");
    assert_eq!(GameMode::Casual.wire_name(), "casual");
    assert_eq!(GameMode::Practice.wire_name(), "practice");
}

#[test]
fn parse_u64_exact_cases() {
    assert_eq!(parse_u64("0"), Some(0));
    assert_eq!(parse_u64("42"), Some(42));
    assert_eq!(parse_u64("007"), Some(7));
    assert_eq!(parse_u64("18446744073709551615"), Some(u64::MAX));
    // One past the largest u64.
    assert_eq!(parse_u64("18446744073709551616"), None);
    assert_eq!(parse_u64(""), None);
    assert_eq!(parse_u64("12a"), None);
    assert_eq!(parse_u64("-1"), None);
    assert_eq!(parse_u64(" 7"), None);
}

#[test]
fn client_id_falls_back_to_one() {
    assert_eq!(client_id_from("7"), 7);
    assert_eq!(client_id_from("player-seven"), 1);
    assert_eq!(client_id_from(""), 1);
}

#[test]
fn connection_params_from_match_assignment() {
    let params = derive_connection_params(&server_info(), 7);
    assert_eq!(params.server_host, "1.2.3.4");
    assert_eq!(params.server_port, 7777);
    assert_eq!(params.client_id, 7);
    assert_eq!(params.client_port, (CLIENT_PORT_BASE + 7) as u16);
    assert_eq!(params.server_secret, "s");
    assert_eq!(params.protocol_id, PROTOCOL_ID);
}

#[test]
fn client_port_wraps_in_port_space() {
    let params = derive_connection_params(&server_info(), 0x10000 + 3);
    assert_eq!(params.client_port, ((CLIENT_PORT_BASE + 3) % 0x10000) as u16);
}

#[test]
fn match_status_is_consumed_once() {
    let mut status = MatchFoundStatus::default();
    assert_eq!(status.poll(), None);
    status.publish(server_info());
    assert_eq!(status.poll(), Some(server_info()));
    // Already consumed.
    assert_eq!(status.poll(), None);
}

#[test]
fn networking_state_lifecycle() {
    let mut state = NetworkingState::new();
    assert!(!state.is_connected);
    assert_eq!(state.auth_token, None);
    assert_eq!(state.player_id, None);
    assert_eq!(state.server_url, "http://localhost:3333");
    assert!(state.game_server.is_none());

    state.authenticated("t1".to_string(), "7".to_string());
    assert!(state.is_connected);
    assert_eq!(state.auth_token.as_deref(), Some("t1"));
    assert_eq!(state.player_id.as_deref(), Some("7"));

    state.store_game_server(server_info());
    assert_eq!(state.game_server, Some(server_info()));
}

#[test]
fn connect_url_has_exact_wire_shape() {
    assert_eq!(
        ws_connect_url("ws://localhost:3334", "t1"),
        "ws://localhost:3334/ws?token=t1"
    );
}

#[test]
fn auth_frame_carries_escaped_token() {
    assert_eq!(auth_frame("t1"), "{\"type\":\"auth\",\"token\":\"t1\"}");
    assert_eq!(escape_json("plain"), "plain");
    assert_eq!(escape_json("a\"b"), "a\\\"b");
    assert_eq!(escape_json("a\\b"), "a\\\\b");
    assert_eq!(escape_json("a\nb\x1f"), "a\\u000ab\\u001f");

    let cmd = auth_command("x\"y");
    assert_eq!(
        encode_command(&cmd),
        "{\"type\":\"auth\",\"token\":\"x\\\"y\"}"
    );
}
