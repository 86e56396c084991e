use vstd::prelude::*;

use crate::errors::HttpFailure;
use crate::errors::TraceixError;

verus! {

/// Declares `serde_json::Value`, the parsed JSON document the service
/// answers with. The library carries such values through untouched;
/// callers interpret them.
#[verifier::external_type_specification]
#[verifier::external_body]
pub struct ExValue(serde_json::Value);

/// What `serde_json` decodes the given bytes to: the parsed value, or
/// nothing when they are not a valid JSON document. Parsing depends on
/// the bytes alone.
pub uninterp spec fn json_decoded(bytes: Seq<u8>) -> Option<serde_json::Value>;

/// Relies on `serde_json::from_slice`: it returns the parsed value exactly
/// when the bytes form a valid JSON document, and the error's rendering
/// otherwise.
#[verifier::external_body]
fn parse_json_bytes(bytes: &[u8]) -> (r: Result<serde_json::Value, String>)
    ensures
        r is Ok <==> json_decoded(bytes@) is Some,
        r matches Ok(v) ==> json_decoded(bytes@) == Some(v),
{
    serde_json::from_slice::<serde_json::Value>(bytes).map_err(|e| e.to_string())
}

/// True exactly when an HTTP status lies in the success range.
pub open spec fn status_ok(status: u16) -> bool {
    200 <= status < 300
}

/// Interprets what came back from the transport: a status outside the 2xx
/// range is an HTTP failure and the body is not looked at; a success
/// status yields the body decoded as JSON, or a decode failure.
pub fn handle_response(status: u16, body: &[u8]) -> (r: Result<serde_json::Value, TraceixError>)
    ensures
        r is Ok <==> status_ok(status) && json_decoded(body@) is Some,
        r matches Ok(v) ==> json_decoded(body@) == Some(v),
        !status_ok(status) ==> (r matches Err(e) && e == TraceixError::Http(
            HttpFailure::Status(status),
        )),
        status_ok(status) && json_decoded(body@) is None ==> (r matches Err(e)
            && e matches TraceixError::Http(f) && f is Decode),
{
    if status < 200 || status >= 300 {
        return Err(TraceixError::Http(HttpFailure::Status(status)));
    }
    match parse_json_bytes(body) {
        Ok(v) => Ok(v),
        Err(m) => Err(TraceixError::Http(HttpFailure::Decode(m))),
    }
}

} // verus!
