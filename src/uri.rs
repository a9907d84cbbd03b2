use crate::error::{S9Result, S9WebSocketError};
use vstd::prelude::*;

verus! {

/// A parsed connection target, as the `http` crate that tungstenite uses holds it.
#[verifier::external_type_specification]
#[verifier::external_body]
pub struct ExUri(tungstenite::http::Uri);

/// Whether the `http` crate accepts this text as a URI.
pub uninterp spec fn uri_accepted(s: Seq<char>) -> bool;

/// Relies on `http::Uri::from_str` (`FromStr` for `Uri`): whether it accepts
/// the text depends on the text alone, and it refuses an empty one. The
/// refusal is handed back as the text of the `InvalidUri` error.
#[verifier::external_body]
fn uri_from_str(s: &str) -> (r: Result<tungstenite::http::Uri, String>)
    ensures
        r is Ok <==> uri_accepted(s@),
        s@.len() == 0 ==> r is Err,
{
    match <tungstenite::http::Uri as std::str::FromStr>::from_str(s) {
        Ok(u) => Ok(u),
        Err(e) => Err(e.to_string()),
    }
}

/// Parses the connection target; a text that is no URI is refused with
/// `InvalidUri`, which carries the parser's description.
pub fn parse_uri(uri: &str) -> (r: S9Result<tungstenite::http::Uri>)
    ensures
        r is Ok <==> uri_accepted(uri@),
        r is Err ==> r->Err_0 is InvalidUri,
        uri@.len() == 0 ==> r is Err,
{
    match uri_from_str(uri) {
        Ok(u) => Ok(u),
        Err(msg) => Err(S9WebSocketError::InvalidUri(msg)),
    }
}

} // verus!
