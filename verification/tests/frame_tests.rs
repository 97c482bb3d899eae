use stratking::events::MatchFound;
use stratking::frames::{classify_frame, decode_frame, FrameFields, WebSocketMessage};
use stratking::manager::NetworkManager;
use stratking::session::Notification;

fn empty_fields() -> FrameFields {
    FrameFields::empty()
}

#[test]
fn match_found_frame_round_trip() {
    // The scenario frame, decoded through the real JSON parser.
    let text = "{\"type\":\"match_found\",\"data\":{\"matchId\":5,\"serverHost\":\"1.2.3.4\",\
                 \"serverPort\":7777,\"serverSecret\":\"s\",\"players\":[7,8]}}";
    let expected = MatchFound {
        match_id: 5,
        server_host: "1.2.3.4".to_string(),
        server_port: 7777,
        server_secret: "s".to_string(),
        players: vec![7, 8],
    };
    let decoded = decode_frame(text);
    assert_eq!(decoded, WebSocketMessage::MatchFound(expected.clone()));

    // Exactly one notification, and a second identical frame produces none.
    let mut m = NetworkManager::default();
    let first = m.handle_inbound(decoded);
    assert_eq!(first, Some(Notification::MatchFound(expected)));
    let second = m.handle_inbound(decode_frame(text));
    assert_eq!(second, None);
}

#[test]
fn match_found_missing_field_is_invalid() {
    let text = "{\"type\":\"match_found\",\"data\":{\"matchId\":5,\"serverHost\":\"1.2.3.4\"}}";
    assert_eq!(decode_frame(text), WebSocketMessage::Invalid);
}

#[test]
fn match_found_port_is_truncated_to_u16() {
    let text = "{\"type\":\"match_found\",\"data\":{\"matchId\":1,\"serverHost\":\"h\",\
                 \"serverPort\":70000,\"serverSecret\":\"k\",\"players\":[]}}";
    match decode_frame(text) {
        WebSocketMessage::MatchFound(m) => assert_eq!(m.server_port, (70000u32 % 65536) as u16),
        other => panic!("unexpected {:?}", other),
    }
}

#[test]
fn match_found_skips_non_integer_players() {
    let text = "{\"type\":\"match_found\",\"data\":{\"matchId\":1,\"serverHost\":\"h\",\
                 \"serverPort\":1,\"serverSecret\":\"k\",\"players\":[7,\"x\",8]}}";
    match decode_frame(text) {
        WebSocketMessage::MatchFound(m) => assert_eq!(m.players, vec![7, 8]),
        other => panic!("unexpected {:?}", other),
    }
}

#[test]
fn match_found_fields_live_under_data() {
    // The payload members belong under "data"; the same members at the top
    // level do not form a match_found frame.
    let text = "{\"type\":\"match_found\",\"matchId\":5,\"serverHost\":\"1.2.3.4\",\
                 \"serverPort\":7777,\"serverSecret\":\"s\",\"players\":[7,8]}";
    assert_eq!(decode_frame(text), WebSocketMessage::Invalid);
}

#[test]
fn match_found_keys_are_camel_case() {
    // The wire names are camelCase; snake_case members are not recognized.
    let text = "{\"type\":\"match_found\",\"data\":{\"match_id\":5,\"server_host\":\"1.2.3.4\",\
                 \"server_port\":7777,\"server_secret\":\"s\",\"players\":[7,8]}}";
    assert_eq!(decode_frame(text), WebSocketMessage::Invalid);
}

#[test]
fn unparsable_text_is_invalid() {
    assert_eq!(decode_frame("this is not json"), WebSocketMessage::Invalid);
    assert_eq!(decode_frame("{\"no_type\":1}"), WebSocketMessage::Invalid);
}

#[test]
fn unknown_discriminator_is_surfaced() {
    assert_eq!(
        decode_frame("{\"type\":\"pong\"}"),
        WebSocketMessage::Unknown { message_type: "pong".to_string() }
    );
}

#[test]
fn connection_success_frame() {
    let text = "{\"type\":\"connection_success\",\"data\":{\"message\":\"hello\"}}";
    assert_eq!(
        decode_frame(text),
        WebSocketMessage::ConnectionSuccess { message: "hello".to_string() }
    );
    // Without the message the frame is dropped.
    assert_eq!(
        decode_frame("{\"type\":\"connection_success\"}"),
        WebSocketMessage::Invalid
    );
}

#[test]
fn queue_join_response_defaults() {
    let text = "{\"type\":\"queue_join_response\",\"data\":{\"success\":true,\
                 \"message\":\"in\"}}";
    assert_eq!(
        decode_frame(text),
        WebSocketMessage::QueueJoinResponse { success: true, message: "in".to_string() }
    );
    // Missing fields fall back to failure and a placeholder message.
    assert_eq!(
        decode_frame("{\"type\":\"queue_join_response\",\"data\":{}}"),
        WebSocketMessage::QueueJoinResponse {
            success: false,
            message: "Unknown response".to_string()
        }
    );
}

#[test]
fn queue_joined_and_left_frames() {
    assert_eq!(
        decode_frame("{\"type\":\"queue_joined\",\"estimated_wait_time\":30}"),
        WebSocketMessage::QueueJoined { estimated_wait_time: Some(30) }
    );
    assert_eq!(
        decode_frame("{\"type\":\"queue_joined\"}"),
        WebSocketMessage::QueueJoined { estimated_wait_time: None }
    );
    assert_eq!(decode_frame("{\"type\":\"queue_left\"}"), WebSocketMessage::QueueLeft);
}

#[test]
fn queue_cancelled_and_error_frames() {
    assert_eq!(
        decode_frame("{\"type\":\"queue_cancelled\",\"data\":{\"reason\":\"timeout\"}}"),
        WebSocketMessage::QueueCancelled { reason: "timeout".to_string() }
    );
    assert_eq!(
        decode_frame("{\"type\":\"queue_cancelled\"}"),
        WebSocketMessage::Invalid
    );
    assert_eq!(
        decode_frame("{\"type\":\"error\",\"message\":\"server going down\"}"),
        WebSocketMessage::Error { message: "server going down".to_string() }
    );
    assert_eq!(decode_frame("{\"type\":\"error\"}"), WebSocketMessage::Invalid);
}

#[test]
fn classify_without_discriminator_is_invalid() {
    assert_eq!(classify_frame(empty_fields()), WebSocketMessage::Invalid);

    let mut f = empty_fields();
    f.msg_type = Some("match_found".to_string());
    // Recognized type, missing payload.
    assert_eq!(classify_frame(f), WebSocketMessage::Invalid);
}

#[test]
fn classify_matches_decode_on_built_fields() {
    let mut f = empty_fields();
    f.msg_type = Some("queue_joined".to_string());
    f.estimated_wait_time = Some(12);
    assert_eq!(
        classify_frame(f),
        WebSocketMessage::QueueJoined { estimated_wait_time: Some(12) }
    );
}
