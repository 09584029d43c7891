//! The subscription handshake: the connector's configuration and the fixed
//! JSON-RPC subscribe request sent exactly once per successful connection.

use vstd::prelude::*;
use vstd::string::StrSliceExecFns;
use vstd::string::StringExecFns;

verus! {

/// The text of the subscribe request for a given target: protocol version
/// "2.0", request id "1" (a single subscription per connection, never
/// incremented), method "programSubscribe", and the target with its fixed
/// encoding and commitment options.
pub open spec fn subscribe_text(program_id: Seq<char>) -> Seq<char> {
    "{\"jsonrpc\":\"2.0\",\"id\":\"1\",\"method\":\"programSubscribe\",\"params\":[\""@
        + program_id
        + "\",{\"encoding\":\"base64\",\"commitment\":\"confirmed\"}]}"@
}

/// A target that can stand inside a JSON string literal as it is: no quote,
/// no backslash, no control character, so no escaping is ever needed.
pub open spec fn plain_json_text(s: Seq<char>) -> bool {
    forall|i: int| 0 <= i < s.len() ==> s[i] != '"' && s[i] != '\\' && (s[i] as u32) >= 0x20
}

/// Decides `plain_json_text` for a target handed in from outside.
pub fn target_is_plain(s: &str) -> (r: bool)
    ensures
        r == plain_json_text(s@),
{
    let len = s.unicode_len();
    let mut i: usize = 0;
    while i < len
        invariant
            i <= len,
            len == s@.len(),
            forall|j: int| 0 <= j < i ==> s@[j] != '"' && s@[j] != '\\' && (s@[j] as u32) >= 0x20,
        decreases len - i,
    {
        let c = s.get_char(i);
        if c == '"' || c == '\\' || (c as u32) < 0x20 {
            return false;
        }
        i = i + 1;
    }
    true
}

/// The connector's immutable configuration: where to connect and how many
/// reconnection attempts the whole run may spend.
pub struct SolanaConnector {
    pub uri: String,
    pub max_reconnect_attempts: u32,
}

impl SolanaConnector {
    pub fn new(uri: &str, max_reconnect_attempts: u32) -> (c: SolanaConnector)
        ensures
            c.uri@ == uri@,
            c.max_reconnect_attempts == max_reconnect_attempts,
    {
        SolanaConnector { uri: uri.to_owned(), max_reconnect_attempts }
    }

    /// Builds the subscribe request. Pure: the result is a function of the
    /// target alone, and is exactly the fixed shape of `subscribe_text`.
    /// The target must need no JSON escaping (`plain_json_text`), which a
    /// caller decides with `target_is_plain`.
    pub fn prepare_subscribe_msg(&self, program_id: &str) -> (msg: String)
        requires
            plain_json_text(program_id@),
        ensures
            msg@ == subscribe_text(program_id@),
    {
        let mut msg = String::from_str(
            "{\"jsonrpc\":\"2.0\",\"id\":\"1\",\"method\":\"programSubscribe\",\"params\":[\"",
        );
        msg.append(program_id);
        msg.append("\",{\"encoding\":\"base64\",\"commitment\":\"confirmed\"}]}");
        msg
    }
}

} // verus!
