//! Canonical JSON encodings.

use crate::digest::{hex_text, sha256_digest, sha256_hex};
use crate::error::{AiError, ErrorModel};
use vstd::prelude::*;

verus! {

/// The canonical encoding of a JSON text: the same value, with the members of
/// every object in key order and without white space.
pub uninterp spec fn canonical_json_bytes(encoding: Seq<u8>) -> Option<Seq<u8>>;

/// Bytes of an optional encoding.
pub open spec fn encoding_option(encoding: Option<Vec<u8>>) -> Option<Seq<u8>> {
    match encoding {
        Some(bytes) => Some(bytes@),
        None => None,
    }
}

/// Canonical encoding of a JSON text (`serde_json::from_slice` into a `Value`,
/// then `serde_json::to_vec`). The result is named as a function of the bytes;
/// there is none where they are not a JSON text.
#[verifier::external_body]
pub(crate) fn canonical_json(encoding: &[u8]) -> (canonical: Option<Vec<u8>>)
    ensures
        encoding_option(canonical) == canonical_json_bytes(encoding@),
{
    let value: serde_json::Value = serde_json::from_slice(encoding).ok()?;
    serde_json::to_vec(&value).ok()
}

/// The JSON string with this text, quoted and escaped.
pub uninterp spec fn json_string_text(text: Seq<char>) -> Seq<char>;

/// Encodes a text as a JSON string (`serde_json::Value::from` a text, then its
/// `to_string`). The result is named as a function of the text.
#[verifier::external_body]
pub(crate) fn json_string(text: &str) -> (encoded: String)
    ensures
        encoded@ == json_string_text(text@),
{
    serde_json::Value::from(text).to_string()
}

/// The digest of the canonical encoding of a JSON text.
pub fn canonical_json_hash(encoding: &[u8]) -> (result: Result<String, AiError>)
    ensures
        match result {
            Ok(hash) => canonical_json_bytes(encoding@) matches Some(bytes) && hash@ == hex_text(
                sha256_digest(bytes),
            ),
            Err(error) => canonical_json_bytes(encoding@) is None && error@
                == ErrorModel::PersistenceFailed,
        },
{
    match canonical_json(encoding) {
        Some(bytes) => Ok(sha256_hex(bytes.as_slice())),
        None => Err(AiError::PersistenceFailed),
    }
}

/// Whether two encodings are JSON texts of equal values.
pub uninterp spec fn json_equal(left: Seq<u8>, right: Seq<u8>) -> bool;

/// Compares two JSON texts as values (`serde_json::from_slice` into a `Value`
/// each, then `==` on `Value`). The result is named as a function of both
/// texts; what is not a JSON text equals nothing.
#[verifier::external_body]
pub(crate) fn same_json(left: &[u8], right: &[u8]) -> (result: bool)
    ensures
        result == json_equal(left@, right@),
{
    let left: Option<serde_json::Value> = serde_json::from_slice(left).ok();
    let right: Option<serde_json::Value> = serde_json::from_slice(right).ok();
    left.is_some() && left == right
}

} // verus!
