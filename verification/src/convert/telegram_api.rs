//! Errors from Telegram Bot API requests.

use std::borrow::Cow;

use vstd::prelude::*;

use crate::context::{
    built_context, built_error_with_retry, ctx_category, ctx_redact_field, error_with_retry, text_field, value_field,
    Context, ContextView,
};
use crate::error::Error;
use crate::field;
use crate::kind::AppErrorKind;
use crate::metadata::FieldValue;
use crate::redaction_policy::FieldRedaction;

verus! {

/// Why a Bot API request failed.
#[derive(Debug, Clone, PartialEq, Eq)]
pub enum TelegramRequestFailure {
    /// The API answered with an error.
    Api {
        /// The error's description.
        description: String,
        /// The error's variant name.
        variant: String,
        /// Whether the bot token was rejected.
        invalid_token: bool,
    },
    /// The group chat was migrated to a supergroup with this id.
    MigrateToChatId(i64),
    /// Flood control: retry after this many seconds.
    RetryAfter(u32),
    /// The network failed.
    Network(String),
    /// The answer was not valid JSON.
    InvalidJson {
        /// What the parser reported.
        detail: String,
        /// Length of the raw answer.
        payload_len: u64,
    },
    /// Local I/O failed; the I/O error kind's name.
    Io(String),
}

/// The context of a failed Bot API request and the retry delay it suggests.
pub open spec fn telegram_api_context(e: TelegramRequestFailure) -> (ContextView, Option<u64>) {
    let reason = |r: &'static str| text_field("telegram.reason", Cow::Borrowed(r));
    match e {
        TelegramRequestFailure::Api { description, variant, invalid_token } => {
            let v = built_context(AppErrorKind::ExternalApi, seq![
                reason("api"),
                text_field("telegram.api_error", Cow::Owned(description)),
                text_field("telegram.api_error_variant", Cow::Owned(variant)),
            ]);
            (if invalid_token { ctx_category(v, AppErrorKind::Unauthorized) } else { v }, None)
        },
        TelegramRequestFailure::MigrateToChatId(id) => (built_context(AppErrorKind::ExternalApi, seq![
            reason("migrate_to_chat"),
            value_field("telegram.chat_id", FieldValue::I64(id)),
        ]), None),
        TelegramRequestFailure::RetryAfter(secs) => (built_context(AppErrorKind::RateLimited, seq![
            reason("retry_after"),
            value_field("telegram.retry_after_secs", FieldValue::U64(secs as u64)),
        ]), Some(secs as u64)),
        TelegramRequestFailure::Network(detail) => (ctx_redact_field(built_context(AppErrorKind::Network, seq![
            reason("network"),
            text_field("telegram.detail", Cow::Owned(detail)),
        ]), "telegram.detail"@, FieldRedaction::Hash), None),
        TelegramRequestFailure::InvalidJson { detail, payload_len } => (built_context(AppErrorKind::Deserialization, seq![
            reason("invalid_json"),
            text_field("telegram.detail", Cow::Owned(detail)),
            value_field("telegram.payload_len", FieldValue::U64(payload_len)),
        ]), None),
        TelegramRequestFailure::Io(kind) => (built_context(AppErrorKind::Internal, seq![
            reason("io"),
            text_field("io.kind", Cow::Owned(kind)),
        ]), None),
    }
}

/// Builds the context of a failed Bot API request and its retry delay.
pub fn build_telegram_api_context(err: &TelegramRequestFailure) -> (r: (Context, Option<u64>))
    ensures
        (r.0@, r.1) =~= telegram_api_context(*err),
{
    match err {
        TelegramRequestFailure::Api { description, variant, invalid_token } => {
            let mut context = Context::new(AppErrorKind::ExternalApi)
                .with(field::str("telegram.reason", "api"))
                .with(field::str("telegram.api_error", description.clone()))
                .with(field::str("telegram.api_error_variant", variant.clone()));
            if *invalid_token {
                context = context.category(AppErrorKind::Unauthorized);
            }
            (context, None)
        }
        TelegramRequestFailure::MigrateToChatId(id) => (
            Context::new(AppErrorKind::ExternalApi)
                .with(field::str("telegram.reason", "migrate_to_chat"))
                .with(field::i64("telegram.chat_id", *id)),
            None,
        ),
        TelegramRequestFailure::RetryAfter(secs) => {
            let seconds = *secs as u64;
            (
                Context::new(AppErrorKind::RateLimited)
                    .with(field::str("telegram.reason", "retry_after"))
                    .with(field::u64("telegram.retry_after_secs", seconds)),
                Some(seconds),
            )
        }
        TelegramRequestFailure::Network(detail) => (
            Context::new(AppErrorKind::Network)
                .with(field::str("telegram.reason", "network"))
                .with(field::str("telegram.detail", detail.clone()))
                .redact_field("telegram.detail", FieldRedaction::Hash),
            None,
        ),
        TelegramRequestFailure::InvalidJson { detail, payload_len } => (
            Context::new(AppErrorKind::Deserialization)
                .with(field::str("telegram.reason", "invalid_json"))
                .with(field::str("telegram.detail", detail.clone()))
                .with(field::u64("telegram.payload_len", *payload_len)),
            None,
        ),
        TelegramRequestFailure::Io(kind) => (
            Context::new(AppErrorKind::Internal)
                .with(field::str("telegram.reason", "io"))
                .with(field::str("io.kind", kind.clone())),
            None,
        ),
    }
}

/// The error of a failed Bot API request, with the suggested retry advice,
/// caused by the given chain.
pub fn telegram_api_error(err: &TelegramRequestFailure, source_chain: Vec<String>) -> (r: Error)
    ensures
        built_error_with_retry(r, telegram_api_context(*err).0, source_chain, telegram_api_context(*err).1),
{
    let (context, retry) = build_telegram_api_context(err);
    error_with_retry(context, retry, source_chain)
}

} // verus!
