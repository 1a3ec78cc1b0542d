//! Replies and the dispatcher that sends them. A reply is serialized here,
//! by a verified function whose output is pinned character by character, and
//! handed as text to a caller-supplied transport, so that the platform's
//! reply schema is part of the library's contract rather than of the I/O
//! layer.

use vstd::prelude::*;

verus! {

/// A reply produced by a handler: the pipeline fills `reply_token` in from
/// the originating event before the reply may be sent.
#[derive(Debug)]
pub struct Reply {
    pub reply_token: String,
    pub messages: Vec<ReplyMessage>,
    pub notification_disabled: bool,
}

/// One message within a reply.
#[derive(Debug)]
pub enum ReplyMessage {
    Text { text: String },
}

/// Why a reply was not delivered.
#[derive(Debug)]
pub enum ReplyError {
    /// The transport itself failed (connection, protocol); carries the
    /// transport's description of the failure.
    Reqwest { message: String },
    /// The platform answered with a status outside the 2xx range.
    UnexpectedStatusResponse { status: u16 },
}

/// What posts a serialized reply to the platform. Implementations live
/// outside the library (an HTTP client, or a test double); they return the
/// response status, or a description of a transport failure.
pub trait ReplyTransport {
    fn post_reply(&mut self, access_token: &str, body: &str) -> (r: Result<u16, String>);
}

impl Reply {
    /// A reply with an empty token placeholder; the pipeline stitches the
    /// event's reply token in before sending.
    pub fn new(messages: Vec<ReplyMessage>, notification_disabled: bool) -> (r: Reply)
        ensures
            r.reply_token@ =~= Seq::<char>::empty(),
            r.messages == messages,
            r.notification_disabled == notification_disabled,
    {
        proof {
            reveal_strlit("");
        }
        Reply { reply_token: "".to_owned(), messages, notification_disabled }
    }
}

// ---------------------------------------------------------------------------
// Serialization
// ---------------------------------------------------------------------------

/// The hexadecimal digit character for `v` (0 to 15).
pub open spec fn hex_char(v: int) -> char {
    if v < 10 {
        ((48 + v) as u8) as char
    } else {
        ((87 + v) as u8) as char
    }
}

/// How one character is written inside a JSON string literal.
pub open spec fn esc_of(c: char) -> Seq<char> {
    if c == '"' {
        seq!['\\', '"']
    } else if c == '\\' {
        seq!['\\', '\\']
    } else if c == '\n' {
        seq!['\\', 'n']
    } else if c == '\r' {
        seq!['\\', 'r']
    } else if c == '\t' {
        seq!['\\', 't']
    } else if (c as u32) < 0x20 {
        seq!['\\', 'u', '0', '0', hex_char((c as u32) as int / 16), hex_char((c as u32) as int % 16)]
    } else {
        seq![c]
    }
}

/// The body of a JSON string literal holding the characters `t`.
pub open spec fn json_escape(t: Seq<char>) -> Seq<char>
    decreases t.len(),
{
    if t.len() == 0 {
        Seq::empty()
    } else {
        json_escape(t.drop_last()) + esc_of(t.last())
    }
}

/// The serialization of one reply message.
pub open spec fn spec_message_json(m: ReplyMessage) -> Seq<char> {
    match m {
        ReplyMessage::Text { text } => "{\"type\":\"text\",\"text\":\""@ + json_escape(text@)
            + "\"}"@,
    }
}

/// The serialization of a list of reply messages, comma-separated.
pub open spec fn spec_messages_json(ms: Seq<ReplyMessage>) -> Seq<char>
    decreases ms.len(),
{
    if ms.len() == 0 {
        Seq::empty()
    } else if ms.len() == 1 {
        spec_message_json(ms[0])
    } else {
        spec_messages_json(ms.drop_last()) + ","@ + spec_message_json(ms.last())
    }
}

/// The exact text this library sends for a reply.
pub open spec fn spec_reply_json(r: Reply) -> Seq<char> {
    "{\"replyToken\":\""@ + json_escape(r.reply_token@) + "\",\"messages\":["@
        + spec_messages_json(r.messages@) + "],\"notificationDisabled\":"@ + (
    if r.notification_disabled {
        "true"@
    } else {
        "false"@
    }) + "}"@
}

/// Appends the characters of `t`, escaped for a JSON string literal.
fn escape_into(out: &mut String, t: &str)
    ensures
        final(out)@ == old(out)@ + json_escape(t@),
{
    let n = t.unicode_len();
    let mut i: usize = 0;
    proof {
        assert(t@.take(0) =~= Seq::<char>::empty());
        assert(out@ =~= old(out)@ + json_escape(t@.take(0)));
    }
    while i < n
        invariant
            0 <= i <= n,
            n == t@.len(),
            out@ == old(out)@ + json_escape(t@.take(i as int)),
        decreases n - i,
    {
        let c = t.get_char(i);
        proof {
            assert(t@.take(i + 1).drop_last() =~= t@.take(i as int));
            assert(t@.take(i + 1).last() == c);
        }
        if c == '"' {
            push_pair(out, '\\', '"');
        } else if c == '\\' {
            push_pair(out, '\\', '\\');
        } else if c == '\n' {
            push_pair(out, '\\', 'n');
        } else if c == '\r' {
            push_pair(out, '\\', 'r');
        } else if c == '\t' {
            push_pair(out, '\\', 't');
        } else if (c as u32) < 0x20 {
            push_pair(out, '\\', 'u');
            push_pair(out, '0', '0');
            let hi = (c as u32) / 16;
            let lo = (c as u32) % 16;
            push_pair(out, hex_char_x(hi), hex_char_x(lo));
        } else {
            crate::json::push_char(out, c);
        }
        proof {
            assert(out@ =~= old(out)@ + json_escape(t@.take(i + 1)));
        }
        i = i + 1;
    }
    proof {
        assert(t@.take(n as int) =~= t@);
    }
}

fn hex_char_x(v: u32) -> (r: char)
    requires
        v < 16,
    ensures
        r == hex_char(v as int),
{
    if v < 10 {
        ((48 + v) as u8) as char
    } else {
        ((87 + v) as u8) as char
    }
}

fn push_pair(out: &mut String, a: char, b: char)
    ensures
        final(out)@ == old(out)@.push(a).push(b),
{
    crate::json::push_char(out, a);
    crate::json::push_char(out, b);
}

/// Serializes a reply to the platform's reply schema.
pub fn reply_to_json(reply: &Reply) -> (r: String)
    ensures
        r@ == spec_reply_json(*reply),
{
    let mut out = String::new();
    out.append("{\"replyToken\":\"");
    escape_into(&mut out, reply.reply_token.as_str());
    out.append("\",\"messages\":[");
    let n = reply.messages.len();
    let ghost prefix = "{\"replyToken\":\""@ + json_escape(reply.reply_token@)
        + "\",\"messages\":["@;
    proof {
        assert(out@ =~= prefix + spec_messages_json(reply.messages@.take(0)));
    }
    let mut i: usize = 0;
    while i < n
        invariant
            0 <= i <= n,
            n == reply.messages@.len(),
            out@ == prefix + spec_messages_json(reply.messages@.take(i as int)),
        decreases n - i,
    {
        proof {
            assert(reply.messages@.take(i + 1).drop_last() =~= reply.messages@.take(i as int));
            assert(reply.messages@.take(i + 1).last() == reply.messages@[i as int]);
        }
        if i > 0 {
            out.append(",");
        }
        match &reply.messages[i] {
            ReplyMessage::Text { text } => {
                out.append("{\"type\":\"text\",\"text\":\"");
                escape_into(&mut out, text.as_str());
                out.append("\"}");
            },
        }
        proof {
            assert(out@ =~= prefix + spec_messages_json(reply.messages@.take(i + 1)));
        }
        i = i + 1;
    }
    proof {
        assert(reply.messages@.take(n as int) =~= reply.messages@);
    }
    out.append("],\"notificationDisabled\":");
    if reply.notification_disabled {
        out.append("true");
    } else {
        out.append("false");
    }
    out.append("}");
    proof {
        assert(out@ =~= spec_reply_json(*reply));
    }
    out
}

// ---------------------------------------------------------------------------
// Dispatch
// ---------------------------------------------------------------------------

/// Maps the platform's response status to the dispatcher's outcome: any 2xx
/// response is success, anything else is reported to the caller.
pub fn reply_outcome(status: u16) -> (r: Result<(), ReplyError>)
    ensures
        r is Ok <==> 200 <= status <= 299,
        r matches Err(e) ==> e matches ReplyError::UnexpectedStatusResponse { status: st } && st
            == status,
{
    if 200 <= status && status <= 299 {
        Ok(())
    } else {
        Err(ReplyError::UnexpectedStatusResponse { status })
    }
}

/// Serializes `reply` and posts it through `transport` with a bearer token.
/// A reply must carry a stitched-in reply token; sending one without is a
/// programming error, which the precondition rules out.
pub fn respond<T: ReplyTransport>(transport: &mut T, access_token: &str, reply: &Reply) -> (r:
    Result<(), ReplyError>)
    requires
        reply.reply_token@.len() > 0,
    ensures
        r matches Err(ReplyError::UnexpectedStatusResponse { status }) ==> !(200 <= status <= 299),
{
    let body = reply_to_json(reply);
    match transport.post_reply(access_token, body.as_str()) {
        Ok(status) => reply_outcome(status),
        Err(message) => Err(ReplyError::Reqwest { message }),
    }
}

} // verus!
