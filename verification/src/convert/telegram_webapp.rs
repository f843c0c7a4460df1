//! Errors from failed validations of Telegram Web App init data.

use std::borrow::Cow;

use vstd::prelude::*;

use crate::context::{built_context, built_error, text_field, Context, ContextView};
use crate::error::Error;
use crate::field;
use crate::kind::AppErrorKind;

verus! {

/// Why Web App init data was rejected.
#[derive(Debug, Clone, PartialEq, Eq)]
pub enum WebAppValidationFailure {
    /// A required field is missing.
    MissingField(String),
    /// The data is not properly encoded.
    InvalidEncoding,
    /// The signature is not properly encoded.
    InvalidSignatureEncoding,
    /// The signature does not match.
    SignatureMismatch,
    /// The public key is invalid.
    InvalidPublicKey,
}

/// The context of rejected Web App data: a Telegram authentication error
/// with the reason and, for a missing field, its name.
pub open spec fn webapp_context(e: WebAppValidationFailure) -> ContextView {
    let reason = |r: &'static str| text_field("telegram_webapp.reason", Cow::Borrowed(r));
    built_context(AppErrorKind::TelegramAuth, match e {
        WebAppValidationFailure::MissingField(name) => seq![
            reason("missing_field"),
            text_field("telegram_webapp.field", Cow::Owned(name)),
        ],
        WebAppValidationFailure::InvalidEncoding => seq![reason("invalid_encoding")],
        WebAppValidationFailure::InvalidSignatureEncoding => seq![reason("invalid_signature_encoding")],
        WebAppValidationFailure::SignatureMismatch => seq![reason("signature_mismatch")],
        WebAppValidationFailure::InvalidPublicKey => seq![reason("invalid_public_key")],
    })
}

/// Builds the context of rejected Web App data.
pub fn build_webapp_context(error: &WebAppValidationFailure) -> (r: Context)
    ensures
        r@ =~= webapp_context(*error),
{
    let ctx = Context::new(AppErrorKind::TelegramAuth);
    match error {
        WebAppValidationFailure::MissingField(name) => ctx
            .with(field::str("telegram_webapp.reason", "missing_field"))
            .with(field::str("telegram_webapp.field", name.clone())),
        WebAppValidationFailure::InvalidEncoding => ctx.with(field::str("telegram_webapp.reason", "invalid_encoding")),
        WebAppValidationFailure::InvalidSignatureEncoding => ctx.with(
            field::str("telegram_webapp.reason", "invalid_signature_encoding"),
        ),
        WebAppValidationFailure::SignatureMismatch => ctx.with(field::str("telegram_webapp.reason", "signature_mismatch")),
        WebAppValidationFailure::InvalidPublicKey => ctx.with(field::str("telegram_webapp.reason", "invalid_public_key")),
    }
}

/// The error of rejected Web App data, caused by the given chain.
pub fn webapp_error(error: &WebAppValidationFailure, source_chain: Vec<String>) -> (r: Error)
    ensures
        built_error(r, webapp_context(*error), source_chain),
{
    build_webapp_context(error).into_error(source_chain)
}

} // verus!
