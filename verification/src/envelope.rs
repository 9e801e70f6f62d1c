//! The response envelope and the mapping from an observed HTTP exchange to the
//! JSON reply: every outcome — a transport failure, an unreadable body, or a
//! complete response — is folded into a `{status, text}` envelope, so no error
//! ever crosses the operation boundary.

use crate::json::envelope_json;
use crate::json::envelope_to_json;
use vstd::prelude::*;

verus! {

/// The status placed in an envelope when a failure carries no HTTP status of
/// its own: the "bad request" code.
pub const FALLBACK_STATUS: u16 = 400;

/// The normalized response envelope: an HTTP status code (or the synthesized
/// fallback) together with the response body or a failure description.
pub struct Resp {
    pub status: u16,
    pub text: String,
}

/// The status an envelope reports for a failure: the status the failure
/// carried if any, the fallback otherwise.
pub open spec fn failure_status(status: Option<u16>) -> u16 {
    match status {
        Option::Some(s) => s,
        Option::None => FALLBACK_STATUS,
    }
}

/// Builds the envelope for a failed exchange: the failure's own status when it
/// carries one, otherwise the fallback, and the failure's description as text.
pub fn make_err_to_resp(status: Option<u16>, message: String) -> (r: Resp)
    ensures
        r.status == failure_status(status),
        r.text@ == message@,
{
    let s: u16 = match status {
        Option::Some(s) => s,
        Option::None => FALLBACK_STATUS,
    };
    Resp { status: s, text: message }
}

/// Everything the relay observes of one POST exchange, handed in as plain
/// values by the caller that performed the transport work.
pub enum Exchange {
    /// No response was obtained: connection, name resolution, TLS or timeout
    /// trouble. Such a failure rarely carries an HTTP status.
    TransportFailed { status: Option<u16>, message: String },
    /// A response arrived but its body could not be read as text. The
    /// response's own status is deliberately discarded: the envelope reports
    /// the read failure instead, as if the exchange itself had failed.
    BodyUnreadable { status: Option<u16>, message: String },
    /// A response arrived and its body was read in full, whatever the status
    /// code says: a 404 is passed through, not treated as a failure.
    Completed { status: u16, body: String },
}

/// The status and text of the envelope that a given exchange is mapped to.
pub open spec fn envelope_of(e: Exchange) -> (u16, Seq<char>) {
    match e {
        Exchange::TransportFailed { status, message } => (failure_status(status), message@),
        Exchange::BodyUnreadable { status, message } => (failure_status(status), message@),
        Exchange::Completed { status, body } => (status, body@),
    }
}

/// The JSON reply owed for a given exchange.
pub open spec fn reply_json(e: Exchange) -> Seq<char> {
    envelope_json(envelope_of(e).0, envelope_of(e).1)
}

/// Folds an exchange into its envelope. Every exchange yields one: failures
/// become envelopes rather than errors.
pub fn relay_envelope(e: Exchange) -> (r: Resp)
    ensures
        (r.status, r.text@) == envelope_of(e),
{
    match e {
        Exchange::TransportFailed { status, message } => make_err_to_resp(status, message),
        Exchange::BodyUnreadable { status, message } => make_err_to_resp(status, message),
        Exchange::Completed { status, body } => Resp { status, text: body },
    }
}

/// The reply for one exchange: its envelope, serialized to JSON text. This is
/// the decision half of the relay; the caller performs the POST and hands the
/// outcome in.
pub fn fetch_reply(e: Exchange) -> (out: String)
    ensures
        out@ == reply_json(e),
{
    let r = relay_envelope(e);
    envelope_to_json(r.status, r.text.as_str())
}

/// The relay is a pure function of the observed exchange: two calls on equal
/// exchanges return identical JSON text, so against a deterministic endpoint
/// repeating a request repeats the reply.
pub proof fn lemma_reply_deterministic(a: Exchange, b: Exchange)
    requires
        a == b,
    ensures
        reply_json(a) == reply_json(b),
{
}

} // verus!
