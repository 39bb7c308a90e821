//! Reading JSON with `serde_json`.

use crate::text;
use serde_json::Value;
use vstd::prelude::*;

verus! {

/// The text that the member `name` of the JSON object `json` holds, where `json` is one, has
/// such a member, and it is a text.
pub uninterp spec fn json_text(json: Seq<u8>, name: Seq<char>) -> Option<Seq<char>>;

/// `serde_json::from_slice` into a `Value`, of which the member `name` is read with
/// `Value::as_str`. What is not JSON reads as null, which has no members.
///
/// Claimed: the result is a function of the bytes and the name.
#[verifier::external_body]
pub(crate) fn json_text_member(json: &[u8], name: &str) -> (text: Option<String>)
    ensures
        text::option_view(text) == json_text(json@, name@),
{
    let value: Value = serde_json::from_slice(json).unwrap_or_default();
    value[name].as_str().map(str::to_owned)
}

/// The text that `json` holds, where it is a JSON text, or why it is not.
pub uninterp spec fn json_string(json: Seq<u8>) -> Result<Seq<char>, Seq<char>>;

/// What the text or the error of a reading says.
pub open spec fn reading_view(reading: Result<String, String>) -> Result<Seq<char>, Seq<char>> {
    match reading {
        Ok(text) => Ok(text@),
        Err(reason) => Err(reason@),
    }
}

/// `serde_json::from_slice` into a `String`. An error stands as its message.
///
/// Claimed: the result is a function of the bytes.
#[verifier::external_body]
pub(crate) fn read_json_string(json: &[u8]) -> (reading: Result<String, String>)
    ensures
        reading_view(reading) == json_string(json@),
{
    serde_json::from_slice::<String>(json).map_err(|e| e.to_string())
}

} // verus!
