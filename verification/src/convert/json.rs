//! Errors from JSON encoding and decoding.

use std::borrow::Cow;

use vstd::prelude::*;

use crate::context::{built_context, built_error, ctx_with, text_field, value_field, Context, ContextView};
use crate::error::Error;
use crate::field;
use crate::kind::AppErrorKind;
use crate::metadata::FieldValue;

verus! {

/// Class of a JSON failure.
#[derive(Debug, Clone, Copy, PartialEq, Eq, Structural)]
pub enum JsonCategory {
    /// Reading or writing the underlying stream failed.
    Io,
    /// The input is not valid JSON.
    Syntax,
    /// The JSON does not fit the expected type.
    Data,
    /// The input ended early.
    Eof,
}

/// A JSON failure: its class and position (zero when unknown).
#[derive(Debug, Clone, Copy, PartialEq, Eq, Structural)]
pub struct JsonFailure {
    /// Class of the failure.
    pub category: JsonCategory,
    /// One-based line, or zero.
    pub line: u64,
    /// One-based column, or zero.
    pub column: u64,
}

/// Name of a failure class.
pub open spec fn json_category_name(c: JsonCategory) -> &'static str {
    match c {
        JsonCategory::Io => "Io",
        JsonCategory::Syntax => "Syntax",
        JsonCategory::Data => "Data",
        JsonCategory::Eof => "Eof",
    }
}

/// The context of a JSON failure: serialization for stream failures,
/// deserialization otherwise, with the class and the known position.
pub open spec fn json_context(e: JsonFailure) -> ContextView {
    let kind = match e.category {
        JsonCategory::Io => AppErrorKind::Serialization,
        _ => AppErrorKind::Deserialization,
    };
    let base = built_context(kind, seq![text_field("serde_json.category", Cow::Borrowed(json_category_name(e.category)))]);
    let with_line = if e.line != 0 { ctx_with(base, value_field("serde_json.line", FieldValue::U64(e.line))) } else { base };
    if e.column != 0 { ctx_with(with_line, value_field("serde_json.column", FieldValue::U64(e.column))) } else { with_line }
}

/// Builds the context of a JSON failure.
pub fn build_json_context(error: &JsonFailure) -> (r: Context)
    ensures
        r@ =~= json_context(*error),
{
    let (kind, name) = match error.category {
        JsonCategory::Io => (AppErrorKind::Serialization, "Io"),
        JsonCategory::Syntax => (AppErrorKind::Deserialization, "Syntax"),
        JsonCategory::Data => (AppErrorKind::Deserialization, "Data"),
        JsonCategory::Eof => (AppErrorKind::Deserialization, "Eof"),
    };
    let mut context = Context::new(kind).with(field::str("serde_json.category", name));
    if error.line != 0 {
        context = context.with(field::u64("serde_json.line", error.line));
    }
    if error.column != 0 {
        context = context.with(field::u64("serde_json.column", error.column));
    }
    context
}

/// The error of a JSON failure, caused by the given chain.
pub fn json_error(error: &JsonFailure, source_chain: Vec<String>) -> (r: Error)
    ensures
        built_error(r, json_context(*error), source_chain),
{
    build_json_context(error).into_error(source_chain)
}

} // verus!
