//! WebSocket signaling-channel state and the outbound command encoding.
//!
//! The channel itself (socket, read/write loops) lives outside the crate;
//! here is its state machine — `Disconnected -> Connecting -> Connected ->
//! (Disconnected | Reconnecting)` — and the exact JSON text of each outbound
//! command.

use vstd::prelude::*;
use vstd::string::StringExecFns;

verus! {

/// Lifecycle of the signaling connection for one player session.
#[derive(Clone, Copy, Debug, PartialEq, Eq, Structural)]
pub enum ChannelState {
    Disconnected,
    Connecting,
    Connected,
    Reconnecting,
}

impl ChannelState {
    /// A connection attempt is live: either being established or established.
    /// At most one such attempt exists per session, because the session holds
    /// exactly one `ChannelState`.
    pub open spec fn is_active(self) -> bool {
        self == ChannelState::Connecting || self == ChannelState::Connected
    }
}

/// A command the orchestrator asks the signaling channel to transmit.
#[derive(Clone, Debug, PartialEq, Eq)]
pub enum OutboundCommand {
    QueueJoin,
    QueueLeave,
    /// An arbitrary pre-rendered JSON object, e.g. a custom control message.
    Custom { payload: String },
}

/// The exact wire text of an outbound command.
pub open spec fn encoded_command(c: OutboundCommand) -> Seq<char> {
    match c {
        OutboundCommand::QueueJoin => "{\"type\":\"queue_join\"}"@,
        OutboundCommand::QueueLeave => "{\"type\":\"queue_leave\"}"@,
        OutboundCommand::Custom { payload } => payload@,
    }
}

/// Render an outbound command as the JSON text that goes on the wire.
pub fn encode_command(c: &OutboundCommand) -> (r: String)
    ensures
        r@ == encoded_command(*c),
{
    match c {
        OutboundCommand::QueueJoin => String::from_str("{\"type\":\"queue_join\"}"),
        OutboundCommand::QueueLeave => String::from_str("{\"type\":\"queue_leave\"}"),
        OutboundCommand::Custom { payload } => payload.clone(),
    }
}

/// Relies on `String::push`: appends the given character to the end of the
/// string.
#[verifier::external_body]
fn push_char(s: &mut String, c: char)
    ensures
        final(s)@ == old(s)@.push(c),
{
    s.push(c)
}

/// The hexadecimal digit for a value below 16, lower case.
pub open spec fn hex_digit(n: int) -> char
    recommends
        0 <= n < 16,
{
    if n < 10 {
        ((48 + n) as u8) as char
    } else {
        ((87 + n) as u8) as char
    }
}

/// How one character appears inside a JSON string literal: quote and
/// backslash are escaped, control characters take the `\u00..` form, and
/// everything else stands for itself.
pub open spec fn json_escaped_char(c: char) -> Seq<char> {
    if c == '"' {
        seq!['\\', '"']
    } else if c == '\\' {
        seq!['\\', '\\']
    } else if (c as int) < 32 {
        seq!['\\', 'u', '0', '0', hex_digit((c as int) / 16), hex_digit((c as int) % 16)]
    } else {
        seq![c]
    }
}

/// The body of a JSON string literal denoting the given text.
pub open spec fn json_escaped(s: Seq<char>) -> Seq<char>
    decreases s.len(),
{
    if s.len() <= 0 {
        Seq::empty()
    } else {
        json_escaped(s.drop_last()) + json_escaped_char(s.last())
    }
}

/// Escape text for inclusion in a JSON string literal.
pub fn escape_json(s: &str) -> (r: String)
    ensures
        r@ == json_escaped(s@),
{
    let n = s.unicode_len();
    let mut out = String::new();
    let mut i: usize = 0;
    while i < n
        invariant
            0 <= i <= n,
            n == s@.len(),
            out@ == json_escaped(s@.take(i as int)),
        decreases n - i,
    {
        let c = s.get_char(i);
        let cu = c as u32;
        if c == '"' {
            push_char(&mut out, '\\');
            push_char(&mut out, '"');
        } else if c == '\\' {
            push_char(&mut out, '\\');
            push_char(&mut out, '\\');
        } else if cu < 32 {
            push_char(&mut out, '\\');
            push_char(&mut out, 'u');
            push_char(&mut out, '0');
            push_char(&mut out, '0');
            let hi = (cu / 16) as u8;
            let lo = (cu % 16) as u8;
            let hi_digit = ((48 + hi) as u8) as char;
            let lo_digit = if lo < 10 {
                ((48 + lo) as u8) as char
            } else {
                ((87 + lo) as u8) as char
            };
            push_char(&mut out, hi_digit);
            push_char(&mut out, lo_digit);
        } else {
            push_char(&mut out, c);
        }
        proof {
            assert(s@.take(i + 1).drop_last() =~= s@.take(i as int));
            assert(s@.take(i + 1).last() == s@[i as int]);
            assert(out@ =~= json_escaped(s@.take(i as int)) + json_escaped_char(s@[i as int]));
        }
        i = i + 1;
    }
    proof {
        assert(s@.take(n as int) =~= s@);
    }
    out
}

/// The exact text of the first-frame `auth` message: the deployment variant
/// where the token travels in the opening frame rather than in the
/// connection URL.
pub open spec fn auth_frame_text(token: Seq<char>) -> Seq<char> {
    "{\"type\":\"auth\",\"token\":\""@ + json_escaped(token) + "\"}"@
}

/// Build the first-frame `auth` message carrying the session token.
pub fn auth_frame(token: &str) -> (r: String)
    ensures
        r@ == auth_frame_text(token@),
{
    let mut out = String::from_str("{\"type\":\"auth\",\"token\":\"");
    let escaped = escape_json(token);
    out.append(escaped.as_str());
    out.append("\"}");
    out
}

/// The first-frame `auth` message as an outbound command.
pub fn auth_command(token: &str) -> (r: OutboundCommand)
    ensures
        encoded_command(r) == auth_frame_text(token@),
{
    OutboundCommand::Custom { payload: auth_frame(token) }
}

/// The exact connect URL of the signaling channel: the deployment variant
/// where the token travels as a query parameter of the opening request.
pub open spec fn ws_connect_url_text(ws_url: Seq<char>, token: Seq<char>) -> Seq<char> {
    ws_url + "/ws?token="@ + token
}

/// Build the signaling channel's connect URL.  The token goes in verbatim,
/// as the wire contract has it.
pub fn ws_connect_url(ws_url: &str, token: &str) -> (r: String)
    ensures
        r@ == ws_connect_url_text(ws_url@, token@),
{
    let mut out = ws_url.to_owned();
    out.append("/ws?token=");
    out.append(token);
    out
}

} // verus!
