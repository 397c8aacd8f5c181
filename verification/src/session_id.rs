//! Session identifiers, as issued by a service that answers over HTTP.
//!
//! The service answers a request with a JSON array of identifiers, of which
//! the first is taken. Fetching the answer is the caller's business; reading
//! it is done here.

use crate::error::GameError;
use vstd::prelude::*;

verus! {

/// The HTTP status with which the service hands out identifiers.
pub const STATUS_OK: u32 = 200;

/// The error type of `serde_json`, carried from the parser to the point
/// where it is turned into a `GameError`.
#[verifier::external_type_specification]
#[verifier::external_body]
pub struct ExJsonError(serde_json::Error);

/// What `serde_json::from_slice::<Vec<String>>` makes of a byte string: the
/// strings of the JSON array that the bytes spell, or `None` where the
/// parser reports an error.
pub uninterp spec fn json_string_array(body: Seq<u8>) -> Option<Seq<Seq<char>>>;

/// Reads a byte string as a JSON array of strings.
///
/// Trusted: calls `serde_json::from_slice::<Vec<String>>`. The parser's
/// answer depends on the bytes alone, and `json_string_array` is the name
/// of that answer; nothing else is claimed of it.
#[verifier::external_body]
fn parse_string_array(body: &[u8]) -> (parsed: Result<Vec<String>, serde_json::Error>)
    ensures
        match parsed {
            Ok(list) => json_string_array(body@) == Some(list.deep_view()),
            Err(_) => json_string_array(body@) is None,
        },
{
    serde_json::from_slice::<Vec<String>>(body)
}

/// The identifier that a parsed answer yields: the first string of the
/// list, and a refusal where the list is empty.
pub open spec fn spec_first_session_id(list: Seq<Seq<char>>) -> Result<Seq<char>, GameError> {
    if list.len() > 0 {
        Ok(list[0])
    } else {
        Err(GameError::IdGenerationFailed)
    }
}

/// The identifier that an answer of the service yields, given its status
/// and what its body parses to.
pub open spec fn spec_session_id(status: u32, parsed: Option<Seq<Seq<char>>>) -> Result<
    Seq<char>,
    GameError,
> {
    match parsed {
        Some(list) if status == STATUS_OK => spec_first_session_id(list),
        _ => Err(GameError::IdGenerationFailed),
    }
}

/// The outcome of reading an identifier, with the identifier as the
/// sequence of its characters.
pub open spec fn outcome_view(id: Result<String, GameError>) -> Result<Seq<char>, GameError> {
    match id {
        Ok(text) => Ok(text@),
        Err(e) => Err(e),
    }
}

/// Takes the session identifier out of a parsed answer: the first string of
/// the list. An empty list gives `IdGenerationFailed`.
pub fn first_session_id(list: &Vec<String>) -> (id: Result<String, GameError>)
    ensures
        outcome_view(id) == spec_first_session_id(list.deep_view()),
{
    if list.len() > 0 {
        let text = list[0].clone();
        assert(list.deep_view()[0] == list@[0]@);
        Ok(text)
    } else {
        Err(GameError::IdGenerationFailed)
    }
}

/// Takes the session identifier out of an answer of the service.
///
/// The answer counts only if its status is `STATUS_OK` and its body is a
/// JSON array of strings with at least one element, whose first element is
/// then the identifier. Every other answer gives `IdGenerationFailed`.
pub fn session_id_from_response(status: u32, body: &[u8]) -> (id: Result<String, GameError>)
    ensures
        outcome_view(id) == spec_session_id(status, json_string_array(body@)),
{
    if status != STATUS_OK {
        return Err(GameError::IdGenerationFailed);
    }
    match parse_string_array(body) {
        Ok(list) => first_session_id(&list),
        Err(_) => Err(GameError::IdGenerationFailed),
    }
}

} // verus!
