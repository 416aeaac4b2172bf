//! The two places where the codec hands work to `serde_json`: reading one JSON
//! string and writing one.
//!
//! Nothing in this file is proved. Each function states what `serde_json`
//! does, and the codec's proofs rest on that.

use vstd::prelude::*;

verus! {

/// `serde_json::Error`, carried from a failed call to the code that maps it.
#[verifier::external_type_specification]
#[verifier::external_body]
pub struct ExJsonError(serde_json::Error);

/// The text that `serde_json::from_slice::<String>` reads out of `bytes`, or
/// `None` where it reports an error: the bytes are not one JSON string, alone
/// but for whitespace around it, with valid escapes and valid UTF-8.
pub uninterp spec fn json_string_value(bytes: Seq<u8>) -> Option<Seq<char>>;

/// The bytes that `serde_json::to_vec` writes for a string: the text between
/// double quotes, with the characters that JSON does not take as they are
/// written as escapes.
pub uninterp spec fn json_string_text(text: Seq<char>) -> Seq<u8>;

/// Calls `serde_json::from_slice::<String>`.
///
/// Claims that the call depends on the bytes alone: it returns the text named
/// by [`json_string_value`] where there is one, and an error where there is
/// none.
#[verifier::external_body]
pub(crate) fn read_json_string(bytes: &[u8]) -> (read: Result<String, serde_json::Error>)
    ensures
        match read {
            Ok(text) => json_string_value(bytes@) == Some(text@),
            Err(_) => json_string_value(bytes@) is None,
        },
{
    serde_json::from_slice::<String>(bytes)
}

/// Calls `serde_json::to_vec` on a string.
///
/// Claims that the call succeeds and returns the bytes named by
/// [`json_string_text`]. `to_vec` fails only where the value's own
/// serialisation fails or a map has a key that is no string; a string is
/// neither, and the bytes go to a vector, which takes every write.
#[verifier::external_body]
pub(crate) fn write_json_string(text: &str) -> (written: Result<Vec<u8>, serde_json::Error>)
    ensures
        match written {
            Ok(bytes) => bytes@ == json_string_text(text@),
            Err(_) => false,
        },
{
    serde_json::to_vec(text)
}

} // verus!
