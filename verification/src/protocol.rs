//! The wire protocol: inbound and outbound frame shapes, the one-time
//! Hello/Identify negotiation, and the periodic heartbeat envelope.
use vstd::prelude::*;

verus! {

/// An inbound transport frame: the gateway speaks in text frames carrying
/// JSON envelopes; every other frame kind is opaque to this client.
pub enum Frame {
    Text(String),
    Other,
}

/// Why the startup negotiation was refused.
#[derive(PartialEq, Eq, Structural, Debug, Clone, Copy)]
pub enum NegotiationError {
    /// The first frame was not a text frame carrying a Hello envelope.
    UnexpectedFirstFrame,
    /// The Hello envelope carried a zero or missing heartbeat interval.
    InvalidInterval,
}

/// The textual body of a heartbeat envelope: opcode 1 with a null payload.
pub open spec fn heartbeat_text() -> Seq<char> {
    ("{\"op\": 1, \"d\": null}")@
}

/// Builds the heartbeat frame the background writer emits on every beat.
pub fn heartbeat_frame() -> (r: String)
    ensures
        r@ == heartbeat_text(),
{
    String::from_str("{\"op\": 1, \"d\": null}")
}

/// The numeric fields a text frame carries when read as a gateway envelope:
/// its opcode and, when present, the heartbeat interval under `d`. `None`
/// when the text is not a JSON object with a numeric `op`.
pub uninterp spec fn hello_parse(s: Seq<char>) -> Option<(u64, Option<u64>)>;

/// Relies on serde_json::from_str and Value::get / Value::as_u64: whether a
/// text parses as JSON, and which numeric `op` and `d.heartbeat_interval`
/// fields it carries, depend on its characters alone.
#[verifier::external_body]
fn parse_hello(s: &str) -> (r: Option<(u64, Option<u64>)>)
    ensures
        r == hello_parse(s@),
{
    let v: serde_json::Value = match serde_json::from_str(s) {
        Ok(v) => v,
        Err(_) => return None,
    };
    let op = match v.get("op") {
        Some(o) => match o.as_u64() { Some(n) => n, None => return None },
        None => return None,
    };
    let interval = match v.get("d") {
        Some(d) => match d.get("heartbeat_interval") { Some(h) => h.as_u64(), None => None },
        None => None,
    };
    Some((op, interval))
}

/// The quoted, escaped JSON string literal denoting a given text.
pub uninterp spec fn json_string_literal(s: Seq<char>) -> Seq<char>;

/// Relies on serde_json::to_string on a str: yields the JSON string literal
/// (quotes and escapes included) and depends on the characters alone. For a
/// str the serializer writes into an in-memory buffer and cannot fail.
#[verifier::external_body]
fn json_quote(s: &str) -> (r: String)
    ensures
        r@ == json_string_literal(s@),
{
    match serde_json::to_string(s) {
        Ok(r) => r,
        Err(_) => String::new(),
    }
}

/// The textual body of the Identify envelope for a given token: opcode 2,
/// the token as a JSON string, and the fixed client properties.
pub open spec fn identify_text(token: Seq<char>) -> Seq<char> {
    ("{\"op\": 2, \"d\": {\"token\": ")@ + json_string_literal(token)
        + (", \"intents\": 0, \"properties\": {\"$os\": \"linux\", \"$browser\": \"discord-rs\", \"$device\": \"discord-rs\"}}}")@
}

/// Builds the Identify frame sent exactly once, right after Hello.
pub fn build_identify(token: &str) -> (r: String)
    ensures
        r@ == identify_text(token@),
{
    let mut r = String::from_str("{\"op\": 2, \"d\": {\"token\": ");
    let quoted = json_quote(token);
    r.append(quoted.as_str());
    r.append(", \"intents\": 0, \"properties\": {\"$os\": \"linux\", \"$browser\": \"discord-rs\", \"$device\": \"discord-rs\"}}}");
    r
}

/// What negotiation decides about the payload of a first text frame.
pub open spec fn hello_payload_outcome(s: Seq<char>) -> Result<u64, NegotiationError> {
    match hello_parse(s) {
        Some(fields) => if fields.0 == 10 {
            match fields.1 {
                Some(n) => if n > 0 {
                    Ok(n)
                } else {
                    Err(NegotiationError::InvalidInterval)
                },
                None => Err(NegotiationError::InvalidInterval),
            }
        } else {
            Err(NegotiationError::UnexpectedFirstFrame)
        },
        None => Err(NegotiationError::UnexpectedFirstFrame),
    }
}

/// What negotiation decides about an arbitrary first frame.
pub open spec fn hello_outcome(f: Frame) -> Result<u64, NegotiationError> {
    match f {
        Frame::Text(s) => hello_payload_outcome(s@),
        Frame::Other => Err(NegotiationError::UnexpectedFirstFrame),
    }
}

/// Drives the one-time startup handshake on the first inbound frame: accepts
/// exactly a Hello envelope (opcode 10) with a positive heartbeat interval,
/// and answers it with the Identify frame for the caller's token. On failure
/// no Identify frame is produced and the error says what was wrong.
pub fn negotiate(frame: &Frame, token: &str) -> (r: Result<(u64, String), NegotiationError>)
    ensures
        match r {
            Ok(out) => hello_outcome(*frame) == Ok::<u64, NegotiationError>(out.0)
                && out.1@ == identify_text(token@),
            Err(e) => hello_outcome(*frame) == Err::<u64, NegotiationError>(e),
        },
{
    match frame {
        Frame::Text(s) => {
            match parse_hello(s.as_str()) {
                Some(fields) => {
                    if fields.0 != 10 {
                        Err(NegotiationError::UnexpectedFirstFrame)
                    } else {
                        match fields.1 {
                            Some(n) => {
                                if n > 0 {
                                    Ok((n, build_identify(token)))
                                } else {
                                    Err(NegotiationError::InvalidInterval)
                                }
                            },
                            None => Err(NegotiationError::InvalidInterval),
                        }
                    }
                },
                None => Err(NegotiationError::UnexpectedFirstFrame),
            }
        },
        Frame::Other => Err(NegotiationError::UnexpectedFirstFrame),
    }
}

/// Law: a Hello envelope (opcode 10) carrying a positive interval `n` is the
/// one shape negotiation accepts, and the negotiated cadence is exactly `n`.
pub proof fn lemma_hello_accepted(s: Seq<char>, n: u64)
    ensures
        hello_parse(s) == Some((10u64, Some(n))) && n > 0 ==> hello_payload_outcome(s)
            == Ok::<u64, NegotiationError>(n),
{
}

/// Law: a zero or missing interval in a Hello is refused as an invalid
/// interval; text that is not a Hello envelope, and any non-text frame, is
/// refused as an unexpected first frame.
pub proof fn lemma_hello_rejected(s: Seq<char>)
    ensures
        hello_parse(s) == Some((10u64, Some(0u64))) ==> hello_payload_outcome(s)
            == Err::<u64, NegotiationError>(NegotiationError::InvalidInterval),
        (hello_parse(s) matches Some(fields) && fields.0 == 10 && fields.1 is None)
            ==> hello_payload_outcome(s) == Err::<u64, NegotiationError>(
            NegotiationError::InvalidInterval,
        ),
        (hello_parse(s) matches Some(fields) && fields.0 != 10) ==> hello_payload_outcome(s)
            == Err::<u64, NegotiationError>(NegotiationError::UnexpectedFirstFrame),
        hello_parse(s) is None ==> hello_payload_outcome(s) == Err::<u64, NegotiationError>(
            NegotiationError::UnexpectedFirstFrame,
        ),
        hello_outcome(Frame::Other) == Err::<u64, NegotiationError>(
            NegotiationError::UnexpectedFirstFrame,
        ),
{
}

} // verus!
