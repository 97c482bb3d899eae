//! Decoding of inbound signaling frames.
//!
//! Every frame the channel receives is JSON text with a `type` discriminator.
//! The decode step is closed: it yields one of the fixed message variants, an
//! explicit `Unknown` for an unrecognized discriminator, or `Invalid` for
//! text that does not parse or lacks a required field — never a silent drop.
//!
//! Parsing the text is `serde_json`'s job (see [`crate::json`]): each field
//! is the named result of one extraction path through the parser, and
//! [`fields_match`] records which path feeds which field.  What the
//! orchestration layer concludes from the fields is decided by
//! [`classify_frame`], whose contract pins the result down exactly for every
//! combination of them.

use vstd::prelude::*;
use vstd::string::StringExecFns;

use crate::events::MatchFound;
use crate::json::{data_array_len, data_array_len_of, data_bool, data_bool_of, data_string,
    data_string_of, data_u64, data_u64_at, data_u64_at_of, data_u64_of, is_json, json_wf,
    top_string, top_string_of, top_u64, top_u64_of};

verus! {

/// The plain values a frame can carry, each `None` when absent or of the
/// wrong JSON type.  `data_*` fields live under the frame's `data` member;
/// the rest are top-level.
#[derive(Clone, Debug, PartialEq, Eq)]
pub struct FrameFields {
    pub msg_type: Option<String>,
    pub data_message: Option<String>,
    pub data_success: Option<bool>,
    pub match_id: Option<u64>,
    pub server_host: Option<String>,
    pub server_port: Option<u64>,
    pub server_secret: Option<String>,
    pub players: Option<Vec<u64>>,
    pub estimated_wait_time: Option<u64>,
    pub data_reason: Option<String>,
    pub top_message: Option<String>,
}

impl FrameFields {
    /// A frame that carried nothing usable.
    pub fn empty() -> (r: Self)
        ensures
            r == FrameFields::spec_empty(),
    {
        FrameFields {
            msg_type: None,
            data_message: None,
            data_success: None,
            match_id: None,
            server_host: None,
            server_port: None,
            server_secret: None,
            players: None,
            estimated_wait_time: None,
            data_reason: None,
            top_message: None,
        }
    }

    pub open spec fn spec_empty() -> Self {
        FrameFields {
            msg_type: None,
            data_message: None,
            data_success: None,
            match_id: None,
            server_host: None,
            server_port: None,
            server_secret: None,
            players: None,
            estimated_wait_time: None,
            data_reason: None,
            top_message: None,
        }
    }
}

/// The closed set of inbound signaling messages.
#[derive(Clone, Debug, PartialEq, Eq)]
pub enum WebSocketMessage {
    ConnectionSuccess { message: String },
    QueueJoinResponse { success: bool, message: String },
    QueueJoined { estimated_wait_time: Option<u64> },
    QueueLeft,
    MatchFound(MatchFound),
    QueueCancelled { reason: String },
    Error { message: String },
    /// A well-formed frame whose discriminator is not in the fixed set; the
    /// host program must log it, not drop it silently.
    Unknown { message_type: String },
    /// Unparsable text, a frame without a discriminator, or a recognized
    /// frame missing a required field: logged and dropped, the connection
    /// stays open.
    Invalid,
}

/// What [`classify_frame`] must return for a given set of extracted fields.
pub open spec fn classifies(f: FrameFields, r: WebSocketMessage) -> bool {
    match f.msg_type {
        None => r == WebSocketMessage::Invalid,
        Some(t) => if t@ == "connection_success"@ {
            match f.data_message {
                Some(m) => r == (WebSocketMessage::ConnectionSuccess { message: m }),
                None => r == WebSocketMessage::Invalid,
            }
        } else if t@ == "queue_join_response"@ {
            match r {
                WebSocketMessage::QueueJoinResponse { success, message } => {
                    &&& success == (f.data_success == Some(true))
                    &&& match f.data_message {
                        Some(m) => message == m,
                        None => message@ == "Unknown response"@,
                    }
                },
                _ => false,
            }
        } else if t@ == "match_found"@ {
            match (f.match_id, f.server_host, f.server_port, f.server_secret, f.players) {
                (Some(id), Some(host), Some(port), Some(secret), Some(players)) => r == (
                WebSocketMessage::MatchFound(MatchFound {
                    match_id: id,
                    server_host: host,
                    server_port: (port % 0x10000) as u16,
                    server_secret: secret,
                    players: players,
                })),
                _ => r == WebSocketMessage::Invalid,
            }
        } else if t@ == "queue_joined"@ {
            r == (WebSocketMessage::QueueJoined { estimated_wait_time: f.estimated_wait_time })
        } else if t@ == "queue_left"@ {
            r == WebSocketMessage::QueueLeft
        } else if t@ == "queue_cancelled"@ {
            match f.data_reason {
                Some(m) => r == (WebSocketMessage::QueueCancelled { reason: m }),
                None => r == WebSocketMessage::Invalid,
            }
        } else if t@ == "error"@ {
            match f.top_message {
                Some(m) => r == (WebSocketMessage::Error { message: m }),
                None => r == WebSocketMessage::Invalid,
            }
        } else {
            r == (WebSocketMessage::Unknown { message_type: t })
        },
    }
}

/// True exactly when the string equals the literal.
fn str_is(s: &String, lit: &str) -> (r: bool)
    ensures
        r == (s@ == lit@),
{
    let owned: String = lit.to_owned();
    *s == owned
}

/// Turn the extracted fields of one frame into the message it denotes.
/// The tagged-union decode step of the channel boundary: total, and exact
/// for every combination of fields.
pub fn classify_frame(f: FrameFields) -> (r: WebSocketMessage)
    ensures
        classifies(f, r),
{
    match f.msg_type {
        None => WebSocketMessage::Invalid,
        Some(t) => {
            if str_is(&t, "connection_success") {
                match f.data_message {
                    Some(m) => WebSocketMessage::ConnectionSuccess { message: m },
                    None => WebSocketMessage::Invalid,
                }
            } else if str_is(&t, "queue_join_response") {
                let success = match f.data_success {
                    Some(b) => b,
                    None => false,
                };
                let message = match f.data_message {
                    Some(m) => m,
                    None => String::from_str("Unknown response"),
                };
                WebSocketMessage::QueueJoinResponse { success, message }
            } else if str_is(&t, "match_found") {
                match (f.match_id, f.server_host, f.server_port, f.server_secret, f.players) {
                    (Some(id), Some(host), Some(port), Some(secret), Some(players)) => {
                        WebSocketMessage::MatchFound(MatchFound {
                            match_id: id,
                            server_host: host,
                            server_port: (port % 0x10000) as u16,
                            server_secret: secret,
                            players: players,
                        })
                    },
                    _ => WebSocketMessage::Invalid,
                }
            } else if str_is(&t, "queue_joined") {
                WebSocketMessage::QueueJoined { estimated_wait_time: f.estimated_wait_time }
            } else if str_is(&t, "queue_left") {
                WebSocketMessage::QueueLeft
            } else if str_is(&t, "queue_cancelled") {
                match f.data_reason {
                    Some(m) => WebSocketMessage::QueueCancelled { reason: m },
                    None => WebSocketMessage::Invalid,
                }
            } else if str_is(&t, "error") {
                match f.top_message {
                    Some(m) => WebSocketMessage::Error { message: m },
                    None => WebSocketMessage::Invalid,
                }
            } else {
                WebSocketMessage::Unknown { message_type: t }
            }
        },
    }
}

/// The integer entries among the first `n` entries of the array under
/// `data.key`, in order; entries that are not unsigned integers are
/// skipped.
pub open spec fn collected_u64s(s: Seq<char>, key: Seq<char>, n: int) -> Seq<u64>
    decreases n,
{
    if n <= 0 {
        Seq::empty()
    } else {
        collected_u64s(s, key, n - 1) + match data_u64_at_of(s, key, n - 1) {
            Some(v) => seq![v],
            None => Seq::<u64>::empty(),
        }
    }
}

/// The fields of a frame are exactly what the named extraction paths of
/// [`crate::json`] yield on its text: the discriminator and the error
/// message at the top level, the payload members under `data` (camelCase
/// on the wire), and the player list with its non-integer entries skipped.
pub open spec fn fields_match(s: Seq<char>, f: FrameFields) -> bool {
    &&& f.msg_type == top_string_of(s, "type"@)
    &&& f.data_message == data_string_of(s, "message"@)
    &&& f.data_success == data_bool_of(s, "success"@)
    &&& f.match_id == data_u64_of(s, "matchId"@)
    &&& f.server_host == data_string_of(s, "serverHost"@)
    &&& f.server_port == data_u64_of(s, "serverPort"@)
    &&& f.server_secret == data_string_of(s, "serverSecret"@)
    &&& match data_array_len_of(s, "players"@) {
        Some(n) => f.players matches Some(v) && v@ == collected_u64s(s, "players"@, n as int),
        None => f.players is None,
    }
    &&& f.estimated_wait_time == top_u64_of(s, "estimated_wait_time"@)
    &&& f.data_reason == data_string_of(s, "reason"@)
    &&& f.top_message == top_string_of(s, "message"@)
}

/// Read the array under `data.key` as a list of player ids, keeping the
/// entries that are unsigned integers.
fn read_u64_array(text: &str, key: &str) -> (r: Option<Vec<u64>>)
    ensures
        match data_array_len_of(text@, key@) {
            Some(n) => r matches Some(v) && v@ == collected_u64s(text@, key@, n as int),
            None => r is None,
        },
{
    match data_array_len(text, key) {
        Some(n) => {
            let mut out: Vec<u64> = Vec::new();
            let mut i: usize = 0;
            while i < n
                invariant
                    0 <= i <= n,
                    out@ == collected_u64s(text@, key@, i as int),
                decreases n - i,
            {
                match data_u64_at(text, key, i) {
                    Some(x) => out.push(x),
                    None => (),
                }
                i = i + 1;
                proof {
                    assert(out@ =~= collected_u64s(text@, key@, i as int));
                }
            }
            Some(out)
        },
        None => None,
    }
}

/// Decode one frame of text from the signaling channel.
///
/// Text the parser does not accept decodes to `Invalid`.  For accepted
/// text the result is the [`classify_frame`] classification of the fields
/// the named extraction paths yield on the text ([`fields_match`]): the
/// wire shape — which JSON path feeds which field — and the decision made
/// from the fields both stand in the contract, while what a given text
/// yields on each path stays behind the names and is exercised by the
/// tests through the real parser.
pub fn decode_frame(text: &str) -> (r: WebSocketMessage)
    ensures
        !json_wf(text@) ==> r == WebSocketMessage::Invalid,
        json_wf(text@) ==> exists|f: FrameFields|
            #[trigger] fields_match(text@, f) && classifies(f, r),
{
    if !is_json(text) {
        return WebSocketMessage::Invalid;
    }
    let f = FrameFields {
        msg_type: top_string(text, "type"),
        data_message: data_string(text, "message"),
        data_success: data_bool(text, "success"),
        match_id: data_u64(text, "matchId"),
        server_host: data_string(text, "serverHost"),
        server_port: data_u64(text, "serverPort"),
        server_secret: data_string(text, "serverSecret"),
        players: read_u64_array(text, "players"),
        estimated_wait_time: top_u64(text, "estimated_wait_time"),
        data_reason: data_string(text, "reason"),
        top_message: top_string(text, "message"),
    };
    proof {
        assert(fields_match(text@, f));
    }
    classify_frame(f)
}

} // verus!
