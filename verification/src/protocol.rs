//! The send-side decisions around one request/reply exchange: the
//! local model-family check before sending, and the classification of
//! the raw reply afterwards.
//!
//! The transport itself (the HTTP POST) lives outside this crate; it
//! hands back a status code and the raw body text, and everything
//! decided about them is decided here.

use vstd::prelude::*;
use vstd::string::*;
use crate::json::{parse_json, spec_parse_json, JsonValue};
use crate::responses::{
    spec_decode_openai_error, spec_decode_response, DecodeFault, Gpt5Response, OpenAiError,
};

verus! {

/// Whether a wire identifier belongs to the accepted model family:
/// it starts with the family prefix.
pub open spec fn is_gpt5_wire(s: Seq<char>) -> bool {
    s.len() >= 5 && s[0] == 'g' && s[1] == 'p' && s[2] == 't' && s[3] == '-' && s[4] == '5'
}

/// Checks a model identifier against the accepted family; requests
/// for other identifiers are rejected before any network call.
pub fn is_gpt5_model(model: &str) -> (r: bool)
    ensures
        r == is_gpt5_wire(model@),
{
    let n = model.unicode_len();
    if n < 5 {
        return false;
    }
    model.get_char(0) == 'g' && model.get_char(1) == 'p' && model.get_char(2) == 't'
        && model.get_char(3) == '-' && model.get_char(4) == '5'
}

/// What one exchange came to, given the reply's HTTP status code and
/// its body.
#[derive(Debug)]
pub enum ReplyOutcome {
    /// A success status with a body that decodes into a response
    Success(Gpt5Response),
    /// The body is not valid JSON at all; carries the parser's message
    MalformedBody(String),
    /// A failure status with a recognizable vendor error envelope;
    /// carries the vendor's message
    VendorError {
        /// The HTTP status code
        status: u16,
        /// The vendor's error message
        message: String,
    },
    /// A failure status without a recognizable envelope
    UnrecognizedFailure {
        /// The HTTP status code
        status: u16,
    },
    /// A success status whose body does not fit the response shape
    SchemaMismatch(DecodeFault),
}

/// Whether an HTTP status code counts as success.
pub open spec fn is_success_status(status: u16) -> bool {
    200 <= status < 300
}

/// How an outcome must relate to the status code and the parsed body:
/// an unparsable body is malformed whatever the status; on a failure
/// status a recognizable vendor envelope gives its message, anything
/// else is an unrecognized failure; on a success status the body must
/// decode strictly into a response, else the mismatch is reported.
pub open spec fn reply_outcome_ok(
    status: u16,
    parsed: Result<JsonValue, String>,
    r: ReplyOutcome,
) -> bool {
    &&& (parsed matches Err(msg) ==> r matches ReplyOutcome::MalformedBody(m) && m == msg)
    &&& (parsed matches Ok(j) ==> !is_success_status(status) ==> (match spec_decode_openai_error(
        j,
    ) {
        Ok(env) => r matches ReplyOutcome::VendorError { status: st, message } && st == status
            && message == env.error.message,
        Err(_) => r matches ReplyOutcome::UnrecognizedFailure { status: st } && st == status,
    }))
    &&& (parsed matches Ok(j) ==> is_success_status(status) ==> (match spec_decode_response(j) {
        Ok(m) => r matches ReplyOutcome::Success(resp) && resp@ == m,
        Err(e) => r matches ReplyOutcome::SchemaMismatch(f) && f == e,
    }))
}

/// Classifies a parsed reply body against the HTTP status code.
pub fn interpret_reply(status: u16, parsed: Result<JsonValue, String>) -> (r: ReplyOutcome)
    ensures
        reply_outcome_ok(status, parsed, r),
{
    let j = match parsed {
        Ok(j) => j,
        Err(msg) => {
            return ReplyOutcome::MalformedBody(msg);
        },
    };
    if !(status >= 200 && status < 300) {
        match OpenAiError::from_json(j) {
            Ok(env) => ReplyOutcome::VendorError { status, message: env.error.message },
            Err(_) => ReplyOutcome::UnrecognizedFailure { status },
        }
    } else {
        match Gpt5Response::from_json(j) {
            Ok(resp) => ReplyOutcome::Success(resp),
            Err(f) => ReplyOutcome::SchemaMismatch(f),
        }
    }
}

/// Classifies a raw reply: parses the body with the outside JSON
/// parser, then decides the outcome from the status code and what the
/// parse produced.
pub fn classify_reply(status: u16, body: &str) -> (r: ReplyOutcome)
    ensures
        reply_outcome_ok(status, spec_parse_json(body@), r),
{
    let parsed = parse_json(body);
    interpret_reply(status, parsed)
}

} // verus!
