//! Decoding of the remote service's response envelopes.
//!
//! Every response is JSON of the shape `{error_code, result}`. The JSON is
//! taken apart by `serde_json` behind the trusted extractors below; what each
//! extraction yields is a function of the body text alone, so it is given a
//! name (`api_code_of`, `api_result_of`, `login_code_of`, `login_token_of`)
//! and the decoders' contracts fix the outcome for every value of those
//! names. A response that does not decode is a `TransportError`, never a
//! crash.

use vstd::prelude::*;
use vstd::string::StringExecFns;

use crate::errors::ClientError;
use crate::session::{ApiOutcome, LoginOutcome};

verus! {

/// The reserved error code by which the service reports that a session token
/// has expired. Every other non-zero code is unrecoverable for the call.
pub const TOKEN_EXPIRED_CODE: i64 = -20651;

/// The `error_code` of a response body: `Some` exactly when the body is valid
/// JSON whose `error_code` field is an integer with an `i64` representation.
pub uninterp spec fn api_code_of(body: Seq<char>) -> Option<i64>;

/// The `result` payload of a response body, re-serialized as JSON text:
/// `Some` exactly when the body is a JSON object with a `result` field.
pub uninterp spec fn api_result_of(body: Seq<char>) -> Option<Seq<char>>;

/// Relies on serde_json::from_str, Value::get, Value::as_i64 and
/// Value::to_string: decodes the `{error_code, result}` envelope of one API
/// response body, handing the payload on as JSON text. Everything returned is
/// a function of the body text alone, named `api_code_of` / `api_result_of`.
#[verifier::external_body]
fn extract_envelope(body: &str) -> (r: Option<(i64, Option<String>)>)
    ensures
        (r is Some) == (api_code_of(body@) is Some),
        r matches Some(e) ==> api_code_of(body@) == Some(e.0),
        r matches Some(e) ==> (match e.1 {
            Some(p) => api_result_of(body@) == Some(p@),
            None => api_result_of(body@) is None,
        }),
{
    let v: serde_json::Value = serde_json::from_str(body).ok()?;
    let code = v.get("error_code").and_then(|c| c.as_i64())?;
    Some((code, v.get("result").map(|p| p.to_string())))
}

/// The `error_code` of a login response body: `Some` exactly when the body is
/// valid JSON whose `error_code` field is an integer with an `i64`
/// representation.
pub uninterp spec fn login_code_of(body: Seq<char>) -> Option<i64>;

/// The `result.token` of a login response body: `Some` exactly when the body
/// carries one as a string.
pub uninterp spec fn login_token_of(body: Seq<char>) -> Option<Seq<char>>;

/// Relies on serde_json::from_str, Value::get, Value::as_i64 and
/// Value::as_str: decodes the `{error_code, result: {token}}` envelope of one
/// login response body. Everything returned is a function of the body text
/// alone, named `login_code_of` / `login_token_of`.
#[verifier::external_body]
fn extract_login_envelope(body: &str) -> (r: Option<(i64, Option<String>)>)
    ensures
        (r is Some) == (login_code_of(body@) is Some),
        r matches Some(e) ==> login_code_of(body@) == Some(e.0),
        r matches Some(e) ==> (match e.1 {
            Some(t) => login_token_of(body@) == Some(t@),
            None => login_token_of(body@) is None,
        }),
{
    let v: serde_json::Value = serde_json::from_str(body).ok()?;
    let code = v.get("error_code").and_then(|c| c.as_i64())?;
    let token = v.get("result").and_then(|p| p.get("token")).and_then(|t| t.as_str()).map(
        str::to_owned,
    );
    Some((code, token))
}

pub(crate) fn transport(what: &str) -> (r: ClientError)
    ensures
        r matches ClientError::TransportError(m) && m@ == what@,
{
    ClientError::TransportError(String::from_str(what))
}

/// Turn a decoded response envelope into the outcome of one API call: code 0
/// is success with the (present) payload, the reserved sentinel means the
/// token has expired, and any other code is an unrecoverable error carrying
/// the raw body. A success envelope without a `result` payload does not match
/// the schema and is a transport error.
pub fn outcome_for_code(code: i64, result: Option<String>, body: &str) -> (r: Result<
    ApiOutcome,
    ClientError,
>)
    ensures
        code == 0 ==> (match result {
            Some(payload) => r == Ok::<ApiOutcome, ClientError>(ApiOutcome::Success(payload)),
            None => r matches Err(e) && e matches ClientError::TransportError(m) && m@
                == "the response has no result field"@,
        }),
        code != 0 && code == TOKEN_EXPIRED_CODE ==> r == Ok::<ApiOutcome, ClientError>(
            ApiOutcome::TokenExpired,
        ),
        code != 0 && code != TOKEN_EXPIRED_CODE ==> (r matches Ok(o) && o matches ApiOutcome::Error(
            m,
        ) && m@ == body@),
{
    if code == 0 {
        match result {
            Some(payload) => Ok(ApiOutcome::Success(payload)),
            None => Err(transport("the response has no result field")),
        }
    } else if code == TOKEN_EXPIRED_CODE {
        Ok(ApiOutcome::TokenExpired)
    } else {
        Ok(ApiOutcome::Error(body.to_owned()))
    }
}

/// Classify one API response body, for every body: no decodable `error_code`
/// is a transport error; code 0 is success carrying exactly the re-serialized
/// `result` payload (a transport error if the payload is missing); the
/// reserved sentinel is a token expiry; any other code is an error carrying
/// the raw body.
pub fn classify_api_response(body: &str) -> (r: Result<ApiOutcome, ClientError>)
    ensures
        api_code_of(body@) is None ==> (r matches Err(e) && e is TransportError),
        api_code_of(body@) == Some(0i64) ==> (match api_result_of(body@) {
            Some(p) => r matches Ok(o) && o matches ApiOutcome::Success(payload) && payload@ == p,
            None => r matches Err(e) && e is TransportError,
        }),
        (api_code_of(body@) matches Some(c) && c == TOKEN_EXPIRED_CODE) ==> r == Ok::<
            ApiOutcome,
            ClientError,
        >(ApiOutcome::TokenExpired),
        (api_code_of(body@) matches Some(c) && c != 0 && c != TOKEN_EXPIRED_CODE) ==> (r matches Ok(
            o,
        ) && o matches ApiOutcome::Error(m) && m@ == body@),
        r matches Err(e) ==> e is TransportError,
{
    match extract_envelope(body) {
        Some((code, result)) => outcome_for_code(code, result, body),
        None => Err(transport("the response is not a valid envelope")),
    }
}

/// Turn a decoded login envelope into the outcome of one login call: a
/// non-zero code is a rejection carrying the raw body, code 0 yields the
/// token — which must be present as a string, or the envelope does not match
/// the schema and is a transport error.
pub fn login_decision(code: i64, token: Option<String>, body: &str) -> (r: Result<
    LoginOutcome,
    ClientError,
>)
    ensures
        code != 0 ==> (r matches Ok(o) && o matches LoginOutcome::Rejected(m) && m@ == body@),
        code == 0 ==> (match token {
            Some(t) => r == Ok::<LoginOutcome, ClientError>(LoginOutcome::Token(t)),
            None => r matches Err(e) && e matches ClientError::TransportError(m) && m@
                == "the login response carries no token"@,
        }),
{
    if code != 0 {
        Ok(LoginOutcome::Rejected(body.to_owned()))
    } else {
        match token {
            Some(t) => Ok(LoginOutcome::Token(t)),
            None => Err(transport("the login response carries no token")),
        }
    }
}

/// Decode one login response body, for every body: no decodable `error_code`
/// is a transport error; a non-zero code is a rejection carrying the raw
/// body; code 0 yields exactly the body's token, or a transport error when it
/// carries none.
pub fn decode_login_response(body: &str) -> (r: Result<LoginOutcome, ClientError>)
    ensures
        login_code_of(body@) is None ==> (r matches Err(e) && e is TransportError),
        (login_code_of(body@) matches Some(c) && c != 0) ==> (r matches Ok(o) && o
            matches LoginOutcome::Rejected(m) && m@ == body@),
        login_code_of(body@) == Some(0i64) ==> (match login_token_of(body@) {
            Some(t) => r matches Ok(o) && o matches LoginOutcome::Token(tok) && tok@ == t,
            None => r matches Err(e) && e is TransportError,
        }),
        r matches Err(e) ==> e is TransportError,
{
    match extract_login_envelope(body) {
        Some((code, token)) => login_decision(code, token, body),
        None => Err(transport("the response is not a valid envelope")),
    }
}

} // verus!
