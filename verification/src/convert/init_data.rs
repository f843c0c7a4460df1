//! Errors from failed validations of Telegram init data.

use std::borrow::Cow;

use vstd::prelude::*;

use crate::context::{built_context, built_error, text_field, Context, ContextView};
use crate::error::Error;
use crate::field;
use crate::kind::AppErrorKind;

verus! {

/// Why Telegram init data was rejected.
#[derive(Debug, Clone, PartialEq, Eq)]
pub enum InitDataFailure {
    /// `auth_date` is missing.
    AuthDateMissing,
    /// `hash` is missing.
    HashMissing,
    /// `hash` does not match.
    HashInvalid,
    /// The data is malformed.
    UnexpectedFormat(String),
    /// The data is too old.
    Expired,
    /// Validation failed internally.
    Internal(String),
    /// `signature` is missing.
    SignatureMissing,
    /// `signature` does not verify.
    SignatureInvalid(String),
}

/// The context of a rejected init data: a Telegram authentication error
/// with the reason and, when present, the details.
pub open spec fn init_data_context(e: InitDataFailure) -> ContextView {
    let reason = |r: &'static str| text_field("telegram_init_data.reason", Cow::Borrowed(r));
    let details = |d: String| text_field("telegram_init_data.details", Cow::Owned(d));
    built_context(AppErrorKind::TelegramAuth, match e {
        InitDataFailure::AuthDateMissing => seq![reason("auth_date_missing")],
        InitDataFailure::HashMissing => seq![reason("hash_missing")],
        InitDataFailure::HashInvalid => seq![reason("hash_invalid")],
        InitDataFailure::UnexpectedFormat(d) => seq![reason("unexpected_format"), details(d)],
        InitDataFailure::Expired => seq![reason("expired")],
        InitDataFailure::Internal(d) => seq![reason("internal"), details(d)],
        InitDataFailure::SignatureMissing => seq![reason("signature_missing")],
        InitDataFailure::SignatureInvalid(d) => seq![reason("signature_invalid"), details(d)],
    })
}

/// Builds the context of a rejected init data.
pub fn build_init_data_context(error: &InitDataFailure) -> (r: Context)
    ensures
        r@ =~= init_data_context(*error),
{
    let ctx = Context::new(AppErrorKind::TelegramAuth);
    match error {
        InitDataFailure::AuthDateMissing => ctx.with(field::str("telegram_init_data.reason", "auth_date_missing")),
        InitDataFailure::HashMissing => ctx.with(field::str("telegram_init_data.reason", "hash_missing")),
        InitDataFailure::HashInvalid => ctx.with(field::str("telegram_init_data.reason", "hash_invalid")),
        InitDataFailure::UnexpectedFormat(details) => ctx
            .with(field::str("telegram_init_data.reason", "unexpected_format"))
            .with(field::str("telegram_init_data.details", details.clone())),
        InitDataFailure::Expired => ctx.with(field::str("telegram_init_data.reason", "expired")),
        InitDataFailure::Internal(details) => ctx
            .with(field::str("telegram_init_data.reason", "internal"))
            .with(field::str("telegram_init_data.details", details.clone())),
        InitDataFailure::SignatureMissing => ctx.with(field::str("telegram_init_data.reason", "signature_missing")),
        InitDataFailure::SignatureInvalid(details) => ctx
            .with(field::str("telegram_init_data.reason", "signature_invalid"))
            .with(field::str("telegram_init_data.details", details.clone())),
    }
}

/// The error of a rejected init data, caused by the given chain.
pub fn init_data_error(error: &InitDataFailure, source_chain: Vec<String>) -> (r: Error)
    ensures
        built_error(r, init_data_context(*error), source_chain),
{
    build_init_data_context(error).into_error(source_chain)
}

} // verus!
