//! What the processor sends back: reply envelopes whose payload is either a
//! `{"response": <text>}` object or, for listings, a JSON array built by the
//! caller.

use vstd::prelude::*;
use vstd::utf8::encode_utf8;
use crate::job::{Job, job_wire};
use crate::operation::{Operation, OperationModel, keyword};
use crate::error::PersistanceError;

verus! {

/// The JSON string literal that serde_json writes for the text `s`.
pub uninterp spec fn json_quoted(s: Seq<char>) -> Seq<char>;

/// Whether `s` holds no character that a JSON string must escape.
pub open spec fn needs_no_escape(s: Seq<char>) -> bool {
    forall|i: int|
        0 <= i < s.len() ==> #[trigger] s[i] != '"' && s[i] != '\\' && (s[i] as u32) >= 0x20
}

/// Relies on `serde_json::to_string` of a `&str`: a JSON string literal that
/// escapes only `"`, `\` and the characters below U+0020; writing to memory
/// does not fail.
#[verifier::external_body]
fn json_string(s: &str) -> (r: String)
    ensures
        r@ == json_quoted(s@),
        needs_no_escape(s@) ==> r@ == seq!['"'] + s@ + seq!['"'],
{
    serde_json::to_string(s).unwrap_or_default()
}

/// The JSON text of a response object holding `text`.
pub open spec fn wrapped_json(text: Seq<char>) -> Seq<char> {
    "{\"response\":"@ + json_quoted(text) + "}"@
}

/// The JSON text of a response object holding `text` when `text` needs no
/// escaping.
pub open spec fn plain_wrapped_json(text: Seq<char>) -> Seq<char> {
    "{\"response\":\""@ + text + "\"}"@
}

/// The response object wrapped around a textual result.
pub struct ResponseWrapper<'a> {
    pub response: &'a str,
}

impl<'a> ResponseWrapper<'a> {
    /// The UTF-8 bytes of `{"response":<the text as a JSON string>}`.
    pub fn to_json(&self) -> (r: Vec<u8>)
        ensures
            r@ == encode_utf8(wrapped_json(self.response@)),
            needs_no_escape(self.response@) ==> r@ == encode_utf8(plain_wrapped_json(self.response@)),
    {
        let quoted = json_string(self.response);
        let mut out = String::from_str("{\"response\":");
        out.append(quoted.as_str());
        out.append("}");
        proof {
            reveal_strlit("{\"response\":");
            reveal_strlit("}");
            reveal_strlit("{\"response\":\"");
            reveal_strlit("\"}");
            if needs_no_escape(self.response@) {
                assert(out@ =~= plain_wrapped_json(self.response@));
            }
        }
        out.as_str().as_bytes_vec()
    }
}

/// The help text: the keywords of the commands a client can send.
pub open spec fn help_text() -> Seq<char> {
    "Available commands: "@ + keyword(OperationModel::ListAvailable) + ", "@
        + keyword(OperationModel::GetPortfolio) + ", "@ + keyword(OperationModel::Help)
}

/// The help text.
pub fn help_message() -> (r: String)
    ensures
        r@ == help_text(),
{
    let mut out = String::from_str("Available commands: ");
    out.append(Operation::ListAvailable.to_string().as_str());
    out.append(", ");
    out.append(Operation::GetPortfolio.to_string().as_str());
    out.append(", ");
    out.append(Operation::Help.to_string().as_str());
    out
}

/// The reply envelope for connection `id` carrying `payload` as it is.
pub fn reply_bytes(id: u32, payload: &Vec<u8>) -> (r: Vec<u8>)
    ensures
        r@ == job_wire(id, payload@),
{
    Job::envelope(id, payload)
}

/// The reply envelope for connection `id` carrying `text` in a response
/// object.
pub fn wrapped_reply(id: u32, text: &str) -> (r: Vec<u8>)
    ensures
        r@ == job_wire(id, encode_utf8(wrapped_json(text@))),
        needs_no_escape(text@) ==> r@ == job_wire(id, encode_utf8(plain_wrapped_json(text@))),
{
    let wrapped = ResponseWrapper { response: text };
    let json = wrapped.to_json();
    reply_bytes(id, &json)
}

/// The reply to `help` for connection `id`.
pub fn help_reply(id: u32) -> (r: Vec<u8>)
    ensures
        r@ == job_wire(id, encode_utf8(wrapped_json(help_text()))),
{
    let text = help_message();
    wrapped_reply(id, text.as_str())
}

/// The text that reports a storage outcome: `"true"` on success, `"false"`
/// on any failure.
pub open spec fn outcome_text(ok: bool) -> Seq<char> {
    if ok { "true"@ } else { "false"@ }
}

/// The reply to a storage change for connection `id`: a response object
/// holding `"true"` if it succeeded and `"false"` if it failed.
pub fn outcome_reply(id: u32, outcome: &Result<(), PersistanceError>) -> (r: Vec<u8>)
    ensures
        r@ == job_wire(id, encode_utf8(plain_wrapped_json(outcome_text(outcome is Ok)))),
{
    proof {
        reveal_strlit("true");
        reveal_strlit("false");
    }
    match outcome {
        Ok(_) => wrapped_reply(id, "true"),
        Err(_) => wrapped_reply(id, "false"),
    }
}

} // verus!
