//! Errors from malformed multipart request bodies.

use std::borrow::Cow;

use vstd::prelude::*;

use crate::context::{built_context, built_error, ctx_with, text_field, value_field, Context, ContextView};
use crate::error::Error;
use crate::field;
use crate::kind::{canonical_reason, canonical_reason_of, AppErrorKind};
use crate::metadata::FieldValue;

verus! {

/// What a rejected multipart body tells about itself.
#[derive(Debug, Clone, PartialEq, Eq)]
pub struct MultipartFailure {
    /// Description of the rejection.
    pub body_text: String,
    /// HTTP status of the rejection.
    pub status: u16,
}

/// The context of a rejected multipart body whose status has the reason
/// phrase `reason`: a bad request with the description, the status, whether
/// it is a client error (4xx) and the reason phrase when there is one.
pub open spec fn multipart_context(e: MultipartFailure, reason: Option<&'static str>) -> ContextView {
    let base = built_context(AppErrorKind::BadRequest, seq![
        text_field("multipart.reason", Cow::Owned(e.body_text)),
        value_field("http.status", FieldValue::U64(e.status as u64)),
        value_field("http.is_client_error", FieldValue::Bool(400 <= e.status <= 499)),
    ]);
    match reason {
        Some(reason) => ctx_with(base, text_field("http.status_reason", Cow::Borrowed(reason))),
        None => base,
    }
}

/// Builds the context of a rejected multipart body whose status has the
/// reason phrase `reason`.
pub fn build_multipart_context_with_reason(err: &MultipartFailure, reason: Option<&'static str>) -> (r: Context)
    ensures
        r@ =~= multipart_context(*err, reason),
{
    let mut context = Context::new(AppErrorKind::BadRequest)
        .with(field::str("multipart.reason", err.body_text.clone()))
        .with(field::u64("http.status", err.status as u64))
        .with(field::bool("http.is_client_error", 400 <= err.status && err.status <= 499));
    if let Some(reason) = reason {
        context = context.with(field::str("http.status_reason", reason));
    }
    context
}

/// Builds the context of a rejected multipart body, with the status's
/// canonical reason phrase recorded.
pub fn build_multipart_context(err: &MultipartFailure) -> (r: Context)
    ensures
        r@ =~= multipart_context(*err, canonical_reason_of(err.status)),
{
    build_multipart_context_with_reason(err, canonical_reason(err.status))
}

/// The error of a rejected multipart body, caused by the given chain.
pub fn multipart_error(err: &MultipartFailure, source_chain: Vec<String>) -> (r: Error)
    ensures
        built_error(r, multipart_context(*err, canonical_reason_of(err.status)), source_chain),
{
    build_multipart_context(err).into_error(source_chain)
}

} // verus!
