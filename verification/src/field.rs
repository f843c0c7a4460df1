//! Factories for metadata [`Field`] values.

use vstd::prelude::*;
use vstd::utf8::encode_utf8;

use crate::format::{duration_parts_to_string, duration_text};
use crate::message::IntoMessage;
use crate::metadata::{Field, FieldValue};
use crate::redaction_policy::default_redaction;

verus! {

/// The whole seconds that `Duration::as_secs` gives for a duration.
pub uninterp spec fn duration_whole_secs(d: core::time::Duration) -> u64;

/// The nanoseconds past the whole seconds that `Duration::subsec_nanos`
/// gives for a duration.
pub uninterp spec fn duration_subsec(d: core::time::Duration) -> u32;

/// `Duration::as_secs`: the whole seconds of a duration.
#[verifier::external_body]
fn duration_secs(d: &core::time::Duration) -> (r: u64)
    ensures
        r == duration_whole_secs(*d),
{
    d.as_secs()
}

/// `Duration::subsec_nanos`: the fractional part in nanoseconds, always
/// below one billion.
#[verifier::external_body]
fn duration_subsec_nanos(d: &core::time::Duration) -> (r: u32)
    ensures
        r == duration_subsec(*d),
        r < 1_000_000_000,
{
    d.subsec_nanos()
}

/// A string field.
pub fn str<M: IntoMessage>(name: &'static str, value: M) -> (r: Field)
    ensures
        r@.name == name@,
        r@.value == FieldValue::Str(value.message_value()),
        r@.value matches FieldValue::Str(s) && s@ == value.message_text(),
        r@.redaction == default_redaction(encode_utf8(name@)),
{
    Field::new(name, FieldValue::Str(value.into_message()))
}

/// A signed integer field.
pub fn i64(name: &'static str, value: i64) -> (r: Field)
    ensures
        r@.name == name@,
        r@.value == FieldValue::I64(value),
        r@.redaction == default_redaction(encode_utf8(name@)),
{
    Field::new(name, FieldValue::I64(value))
}

/// An unsigned integer field.
pub fn u64(name: &'static str, value: u64) -> (r: Field)
    ensures
        r@.name == name@,
        r@.value == FieldValue::U64(value),
        r@.redaction == default_redaction(encode_utf8(name@)),
{
    Field::new(name, FieldValue::U64(value))
}

/// A boolean field.
pub fn bool(name: &'static str, value: bool) -> (r: Field)
    ensures
        r@.name == name@,
        r@.value == FieldValue::Bool(value),
        r@.redaction == default_redaction(encode_utf8(name@)),
{
    Field::new(name, FieldValue::Bool(value))
}

/// A UUID field, from the UUID's 128-bit value.
pub fn uuid(name: &'static str, value: u128) -> (r: Field)
    ensures
        r@.name == name@,
        r@.value == FieldValue::Uuid(value),
        r@.redaction == default_redaction(encode_utf8(name@)),
{
    Field::new(name, FieldValue::Uuid(value))
}

/// A duration field from whole seconds and nanoseconds.
pub fn duration_parts(name: &'static str, secs: u64, nanos: u32) -> (r: Field)
    ensures
        r@.name == name@,
        r@.value == (FieldValue::Duration { secs, nanos }),
        r@.redaction == default_redaction(encode_utf8(name@)),
{
    Field::new(name, FieldValue::Duration { secs, nanos })
}

/// A duration field.
pub fn duration(name: &'static str, value: core::time::Duration) -> (r: Field)
    ensures
        r@.name == name@,
        r@.value matches FieldValue::Duration { secs, nanos } && secs == duration_whole_secs(value)
            && nanos == duration_subsec(value) && nanos < 1_000_000_000,
        r@.redaction == default_redaction(encode_utf8(name@)),
{
    let secs = duration_secs(&value);
    let nanos = duration_subsec_nanos(&value);
    duration_parts(name, secs, nanos)
}

/// Text of a duration: whole seconds, the fraction without trailing zeros
/// when there is one, then `s`.
pub fn duration_to_string(value: core::time::Duration) -> (r: String)
    ensures
        r@ == duration_text(duration_whole_secs(value), duration_subsec(value)),
{
    let secs = duration_secs(&value);
    let nanos = duration_subsec_nanos(&value);
    duration_parts_to_string(secs, nanos)
}

} // verus!
