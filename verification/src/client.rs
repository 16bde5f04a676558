//! What the client reads out of the answers of the DCS gRPC server.
use vstd::prelude::*;

verus! {

#[verifier::external_type_specification]
#[verifier::external_body]
pub struct ExStatus(tonic::Status);

#[verifier::external_type_specification]
#[verifier::external_body]
pub struct ExJsonValue(serde_json::Value);

#[verifier::external_type_specification]
#[verifier::external_body]
pub struct ExJsonError(serde_json::Error);

/// Why a request to the DCS gRPC server gave no answer.
#[derive(Debug)]
pub enum ClientError {
    /// The call itself failed.
    Grpc(tonic::Status),
    /// The answer held no valid JSON.
    Json(serde_json::Error),
}

/// The outcome of a call into `serde_json`.
pub type JsonResult<T> = Result<T, serde_json::Error>;

/// What `serde_json::from_str` makes of `text` as a `serde_json::Value`:
/// `None` where it refuses the text, else the value it parses.
pub uninterp spec fn json_from_str(text: Seq<char>) -> Option<serde_json::Value>;

/// Whether `serde_json::from_str` accepts `text` as a JSON value.
pub open spec fn json_parses(text: Seq<char>) -> bool {
    json_from_str(text) is Some
}

/// The compact JSON text (`Display`) of the value that indexing the value
/// parsed from `text` by `key` gives (`Value::Null` where that value is no
/// object or has no such member). It speaks of texts that `json_parses`.
pub uninterp spec fn json_member_text(text: Seq<char>, key: Seq<char>) -> Seq<char>;

/// Calls `serde_json::from_str` to parse `text` into a `serde_json::Value`.
/// Whether it succeeds, and the value it gives, are named, not stated: they
/// are a function of `text` alone. The value itself is opaque here.
#[verifier::external_body]
fn parse_json(text: &str) -> (r: JsonResult<serde_json::Value>)
    ensures
        r is Ok == json_parses(text@),
        r matches Ok(value) ==> json_from_str(text@) == Some(value),
{
    serde_json::from_str(text)
}

/// Parses `text` with `serde_json::from_str` into a `serde_json::Value`, indexes
/// it with `key` (which gives `Value::Null` where the value is no object or has
/// no such member, and never panics) and writes that value back with
/// `to_string` (which cannot fail). So it fails exactly where the parse does;
/// the text it gives is named, not stated: a function of `text` and `key` alone.
#[verifier::external_body]
fn member_as_json(text: &str, key: &str) -> (r: JsonResult<String>)
    ensures
        r is Ok == json_parses(text@),
        r matches Ok(member) ==> member@ == json_member_text(text@, key@),
{
    let value: serde_json::Value = match serde_json::from_str(text) {
        Ok(value) => value,
        Err(e) => return Err(e),
    };
    Ok(value[key].to_string())
}

/// Parses the self data that DCS exports as JSON text into a JSON value.
pub fn self_data_from_json(json: &str) -> (r: Result<serde_json::Value, ClientError>)
    ensures
        r is Ok == json_parses(json@),
        r matches Ok(value) ==> json_from_str(json@) == Some(value),
        r matches Err(e) ==> e is Json,
{
    match parse_json(json) {
        Ok(value) => Ok(value),
        Err(e) => Err(ClientError::Json(e)),
    }
}

/// The key under which DCS names the aircraft in the self data.
pub open spec fn name_key() -> Seq<char> {
    seq!['N', 'a', 'm', 'e']
}

/// Reads the aircraft name out of the self data that DCS exports as JSON text:
/// the member `Name`, written back as JSON text (so a string keeps its quotes).
pub fn aircraft_name_from_self_data(json: &str) -> (r: Result<String, ClientError>)
    ensures
        r is Ok == json_parses(json@),
        r matches Ok(name) ==> name@ == json_member_text(json@, name_key()),
        r matches Err(e) ==> e is Json,
{
    let key = "Name";
    proof {
        reveal_strlit("Name");
        assert(key@ =~= name_key());
    }
    match member_as_json(json, key) {
        Ok(name) => Ok(name),
        Err(e) => Err(ClientError::Json(e)),
    }
}

} // verus!
