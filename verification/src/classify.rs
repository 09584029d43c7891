//! Classification of inbound text frames at the parse boundary: each frame
//! is an acknowledgement of the subscription, an event notification to
//! forward, or malformed text to drop. Also the classification of read
//! errors into the one recoverable kind and everything else.

use vstd::prelude::*;
use vstd::string::StringExecFns;

verus! {

/// serde_json's dynamically shaped JSON value. Opaque here: it is parsed
/// and inspected only behind the trusted wrapper below, and otherwise
/// carried through to the consumer untouched.
#[verifier::external_type_specification]
#[verifier::external_body]
pub struct ExValue(serde_json::Value);

/// Whether `serde_json::from_str::<Value>` accepts the text as JSON.
pub uninterp spec fn json_parses(s: Seq<char>) -> bool;

/// The three shape marks of a subscription acknowledgement, read off the
/// value that the text parses to: the `id` field is a string, the
/// `jsonrpc` field is a string, the `result` field is a number. Only
/// meaningful where `json_parses` holds.
pub uninterp spec fn ack_probe(s: Seq<char>) -> (bool, bool, bool);

/// Relies on serde_json: `from_str::<Value>` parses the text (succeeding
/// exactly on well-formed JSON), and indexing with `is_string` /
/// `is_number` reads the three acknowledgement marks, a missing field
/// indexing to `Null`. Parse result and marks depend on the text alone.
#[verifier::external_body]
fn parse_probe(text: &str) -> (r: Option<(serde_json::Value, bool, bool, bool)>)
    ensures
        r is Some <==> json_parses(text@),
        r matches Some(p) ==> (p.1, p.2, p.3) == ack_probe(text@),
{
    match serde_json::from_str::<serde_json::Value>(text) {
        Ok(data) => {
            let id_is_string = data["id"].is_string();
            let jsonrpc_is_string = data["jsonrpc"].is_string();
            let result_is_number = data["result"].is_number();
            Some((data, id_is_string, jsonrpc_is_string, result_is_number))
        }
        Err(_) => None,
    }
}

/// The classification rule: a text is an acknowledgement when it parses
/// and all three shape marks hold.
pub open spec fn is_ack_text(s: Seq<char>) -> bool {
    json_parses(s) && ack_probe(s).0 && ack_probe(s).1 && ack_probe(s).2
}

/// One inbound text frame, classified.
pub enum Classified {
    /// A subscription acknowledgement: consumed internally, never forwarded.
    Acknowledgement,
    /// Any other successfully parsed value: forwarded to the consumer.
    Event(serde_json::Value),
    /// Text that is not JSON: logged and dropped, never fatal.
    Malformed,
}

/// Classifies one text frame. The carried `Event` value is the value the
/// text parses to, handed on verbatim.
pub fn classify(text: &str) -> (c: Classified)
    ensures
        c is Malformed <==> !json_parses(text@),
        json_parses(text@) ==> (c is Acknowledgement <==> is_ack_text(text@)),
        json_parses(text@) && !is_ack_text(text@) ==> c is Event,
{
    match parse_probe(text) {
        None => Classified::Malformed,
        Some((value, id_is_string, jsonrpc_is_string, result_is_number)) => {
            if id_is_string && jsonrpc_is_string && result_is_number {
                Classified::Acknowledgement
            } else {
                Classified::Event(value)
            }
        }
    }
}

/// The transport's description of an abrupt peer reset: the one read
/// failure treated as recoverable. It is the error's literal text, not a
/// structured code, that has to be inspected.
pub open spec fn abrupt_reset_text() -> Seq<char> {
    "WebSocket protocol error: Connection reset without closing handshake"@
}

/// Decides whether a read error's description is the abrupt peer reset.
pub fn is_abrupt_reset(message: &str) -> (r: bool)
    ensures
        r == (message@ == abrupt_reset_text()),
{
    let pattern = String::from_str(
        "WebSocket protocol error: Connection reset without closing handshake",
    );
    let owned = message.to_owned();
    owned == pattern
}

} // verus!
