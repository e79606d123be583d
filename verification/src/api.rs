//! Classification of API responses and the paths of the three endpoints.
//!
//! The client issues three operations over an HTTP-like text transport:
//! create a session, fetch the session's state text, and submit a question.
//! The transport itself lives outside this library; what is decided here is
//! which path each operation uses and how a settled response is read: a
//! status of 200 yields the body, anything else yields an error carrying the
//! status code and the operation attempted.

use vstd::prelude::*;

verus! {

/// The operation a request belonged to, carried inside a status error.
#[derive(Clone, Copy, Debug, PartialEq, Eq, Structural)]
pub enum ApiOp {
    CreateSession,
    FetchState,
    Ask,
}

/// Why an API operation failed.
#[derive(Clone, Copy, Debug, PartialEq, Eq, Structural)]
pub enum ApiError {
    /// The network failed before any response arrived.
    Transport,
    /// A response arrived with a non-200 status.
    Status { code: u16, op: ApiOp },
}

/// Reads a settled response: 200 yields the body unchanged, any other status
/// yields a status error carrying the code and the operation.
pub fn classify_response(op: ApiOp, status: u16, body: String) -> (r: Result<String, ApiError>)
    ensures
        status == 200 ==> r == Ok::<String, ApiError>(body),
        status != 200 ==> r == Err::<String, ApiError>(ApiError::Status { code: status, op }),
{
    if status == 200 {
        Ok(body)
    } else {
        Err(ApiError::Status { code: status, op })
    }
}

/// Path that acquires a new session token.
pub fn new_game_path() -> (r: String)
    ensures
        r@ == "/api/new_game"@,
{
    "/api/new_game".to_owned()
}

/// Path that fetches the state text of the session behind `token`.
pub fn state_path(token: &str) -> (r: String)
    ensures
        r@ == "/api/game/"@ + token@,
{
    let mut p = "/api/game/".to_owned();
    p.append(token);
    p
}

/// Path that a question against `token` is posted to.
pub fn ask_path(token: &str) -> (r: String)
    ensures
        r@ == "/api/game/"@ + token@ + "/ask"@,
{
    let mut p = "/api/game/".to_owned();
    p.append(token);
    p.append("/ask");
    p
}

} // verus!
