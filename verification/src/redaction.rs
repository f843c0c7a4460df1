//! Value transformations behind the [`FieldRedaction`] policies:
//! placeholder substitution, SHA-256 hashing and last-four masking.
//!
//! [`FieldRedaction`]: crate::redaction_policy::FieldRedaction

use std::borrow::Cow;

use sha2::Digest;
use vstd::prelude::*;
use vstd::utf8::encode_utf8;

use crate::format::{
    bytes_to_hex, decimal, duration_parts_to_string, duration_text, hex_lower, i64_to_string, le_bytes,
    mask_last4, mask_last4_text, push_le_bytes, signed_decimal, u64_to_string, uuid_text, uuid_to_string,
};
use crate::metadata::FieldValue;

verus! {

/// Placeholder rendered instead of values redacted with `Redact`.
pub const REDACTED_PLACEHOLDER: &'static str = "[REDACTED]";

/// SHA-256 digest of a byte string.
pub uninterp spec fn sha256_digest(data: Seq<u8>) -> Seq<u8>;

/// `Sha256::digest` from the `sha2` crate: the 32-byte SHA-256 digest of the
/// input.
#[verifier::external_body]
fn sha256(data: &[u8]) -> (r: Vec<u8>)
    ensures
        r@ == sha256_digest(data@),
        r@.len() == 32,
{
    sha2::Sha256::digest(data).to_vec()
}

/// The text of a `Cow<str>`.
pub fn cow_str<'a>(c: &'a Cow<'static, str>) -> (r: &'a str)
    ensures
        r@ == c@,
{
    match c {
        Cow::Borrowed(s) => s,
        Cow::Owned(s) => s.as_str(),
    }
}

/// Textual form of a value that has one; booleans have none.
pub open spec fn value_text(v: FieldValue) -> Option<Seq<char>> {
    match v {
        FieldValue::Str(s) => Some(s@),
        FieldValue::I64(n) => Some(signed_decimal(n as int)),
        FieldValue::U64(n) => Some(decimal(n as nat)),
        FieldValue::Bool(_) => None,
        FieldValue::Uuid(u) => Some(uuid_text(u)),
        FieldValue::Duration { secs, nanos } => Some(duration_text(secs, nanos)),
    }
}

/// The bytes a value is hashed from: the text of strings and integers,
/// `true`/`false` for booleans, and the little-endian seconds (8 bytes)
/// followed by the little-endian nanoseconds (4 bytes) for durations.
pub open spec fn hash_input(v: FieldValue) -> Seq<u8> {
    match v {
        FieldValue::Str(s) => encode_utf8(s@),
        FieldValue::I64(n) => encode_utf8(signed_decimal(n as int)),
        FieldValue::U64(n) => encode_utf8(decimal(n as nat)),
        FieldValue::Bool(b) => if b { encode_utf8("true"@) } else { encode_utf8("false"@) },
        FieldValue::Uuid(u) => encode_utf8(uuid_text(u)),
        FieldValue::Duration { secs, nanos } => le_bytes(secs as nat, 8) + le_bytes(nanos as nat, 4),
    }
}

/// Hashes a field value with SHA-256 and returns the lowercase hex digest.
pub fn hash_field_value(value: &FieldValue) -> (r: String)
    ensures
        r@ == hex_lower(sha256_digest(hash_input(*value))),
{
    let digest = match value {
        FieldValue::Str(s) => sha256(cow_str(s).as_bytes()),
        FieldValue::I64(n) => {
            let text = i64_to_string(*n);
            sha256(text.as_str().as_bytes())
        }
        FieldValue::U64(n) => {
            let text = u64_to_string(*n);
            sha256(text.as_str().as_bytes())
        }
        FieldValue::Bool(b) => {
            if *b {
                sha256("true".as_bytes())
            } else {
                sha256("false".as_bytes())
            }
        }
        FieldValue::Uuid(u) => {
            let text = uuid_to_string(*u);
            sha256(text.as_str().as_bytes())
        }
        FieldValue::Duration { secs, nanos } => {
            let mut bytes: Vec<u8> = Vec::new();
            push_le_bytes(&mut bytes, *secs, 8);
            push_le_bytes(&mut bytes, *nanos as u64, 4);
            assert(bytes@ =~= hash_input(*value));
            sha256(bytes.as_slice())
        }
    };
    bytes_to_hex(digest.as_slice())
}

/// Masks a field value keeping only its last four characters; `None` for
/// values without a textual form (booleans).
pub fn mask_last4_field_value(value: &FieldValue) -> (r: Option<String>)
    ensures
        (match value_text(*value) {
            Some(t) => r matches Some(m) && m@ == mask_last4_text(t),
            None => r is None,
        }),
{
    match value {
        FieldValue::Str(s) => Some(mask_last4(cow_str(s))),
        FieldValue::I64(n) => {
            let text = i64_to_string(*n);
            Some(mask_last4(text.as_str()))
        }
        FieldValue::U64(n) => {
            let text = u64_to_string(*n);
            Some(mask_last4(text.as_str()))
        }
        FieldValue::Uuid(u) => {
            let text = uuid_to_string(*u);
            Some(mask_last4(text.as_str()))
        }
        FieldValue::Duration { secs, nanos } => {
            let text = duration_parts_to_string(*secs, *nanos);
            Some(mask_last4(text.as_str()))
        }
        FieldValue::Bool(_) => None,
    }
}

} // verus!
