use vstd::prelude::*;

use crate::codec::{decode_spec, decoded_as, encode_spec};
use crate::error::CodecError;
use crate::options::Options;

verus! {

#[verifier::external_type_specification]
#[verifier::external_body]
pub struct ExJsonError(serde_json::Error);

/// The contents of the JSON document `text`, when that document is a single
/// JSON string.
pub uninterp spec fn json_string_value(text: Seq<char>) -> Option<Seq<char>>;

/// The JSON string literal that writes `s`, quotes and escapes included.
pub uninterp spec fn json_string_literal(s: Seq<char>) -> Seq<char>;

/// Relies on `serde_json::from_str::<String>`: reads a JSON document that is
/// one string and gives that string's contents, and fails on any other text.
#[verifier::external_body]
fn read_json_string(text: &str) -> (r: Result<String, serde_json::Error>)
    ensures
        r matches Ok(s) ==> json_string_value(text@) == Some(s@),
        r is Err ==> json_string_value(text@) is None,
{
    serde_json::from_str::<String>(text)
}

/// Relies on `serde_json::to_string`: writes `s` as one JSON string literal.
/// For a string it cannot fail: the text goes into a `Vec`, whose writes
/// never fail.
#[verifier::external_body]
fn write_json_string(s: &str) -> (r: Result<String, serde_json::Error>)
    ensures
        r is Ok,
        r matches Ok(j) ==> j@ == json_string_literal(s@),
{
    serde_json::to_string(s)
}

impl Options {
    /// Reads the set from a JSON document that holds its wire text as one
    /// string.
    pub fn from_json(text: &str) -> (r: Result<Options, CodecError>)
        ensures
            json_string_value(text@) is None ==> r == Err::<Options, CodecError>(
                CodecError::InvalidJson,
            ),
            json_string_value(text@) matches Some(s) ==> decoded_as(r, decode_spec(s)),
    {
        match read_json_string(text) {
            Ok(s) => Options::decode(s.as_str()),
            Err(_) => Err(CodecError::InvalidJson),
        }
    }

    /// The set's wire text, written as one JSON string.
    pub fn to_json(&self) -> (r: Result<String, CodecError>)
        ensures
            r is Ok,
            r matches Ok(j) ==> j@ == json_string_literal(encode_spec(self@)),
    {
        let text = self.encode();
        match write_json_string(text.as_str()) {
            Ok(j) => Ok(j),
            Err(_) => Err(CodecError::InvalidJson),
        }
    }
}

} // verus!
