//! Errors from HTTP client requests.

use std::borrow::Cow;

use vstd::prelude::*;
use vstd::string::StrSliceExecFns;

use crate::context::{
    built_context, built_error_with_retry, ctx_category, ctx_redact_field, ctx_with, error_with_retry, text_field,
    value_field, Context, ContextView,
};
use crate::error::Error;
use crate::field;
use crate::kind::{canonical_reason, canonical_reason_of, AppErrorKind};
use crate::metadata::FieldValue;
use crate::redaction_policy::FieldRedaction;

verus! {

/// The parts of a request URL.
#[derive(Debug, Clone, PartialEq, Eq)]
pub struct UrlParts {
    /// The whole URL.
    pub text: String,
    /// Host, when there is one.
    pub host: Option<String>,
    /// Explicit port, when there is one.
    pub port: Option<u16>,
    /// Path.
    pub path: String,
    /// Scheme.
    pub scheme: String,
}

/// What a failed HTTP request tells about itself.
#[derive(Debug, Clone, PartialEq, Eq)]
pub struct HttpClientFailure {
    /// The request timed out.
    pub is_timeout: bool,
    /// Connecting failed.
    pub is_connect: bool,
    /// Sending the request failed.
    pub is_request: bool,
    /// The response had an error status.
    pub is_status: bool,
    /// Reading the body failed.
    pub is_body: bool,
    /// Decoding the body failed.
    pub is_decode: bool,
    /// Following redirects failed.
    pub is_redirect: bool,
    /// Response status, when there was one.
    pub status: Option<u16>,
    /// Request URL, when known.
    pub url: Option<UrlParts>,
}

/// The context every failed request starts from: an external API error with
/// the failure's flags.
pub open spec fn http_client_base(e: HttpClientFailure) -> ContextView {
    built_context(AppErrorKind::ExternalApi, seq![
        value_field("reqwest.is_timeout", FieldValue::Bool(e.is_timeout)),
        value_field("reqwest.is_connect", FieldValue::Bool(e.is_connect)),
        value_field("reqwest.is_request", FieldValue::Bool(e.is_request)),
        value_field("reqwest.is_status", FieldValue::Bool(e.is_status)),
        value_field("reqwest.is_body", FieldValue::Bool(e.is_body)),
        value_field("reqwest.is_decode", FieldValue::Bool(e.is_decode)),
        value_field("reqwest.is_redirect", FieldValue::Bool(e.is_redirect)),
    ])
}

/// The base context classified by the flags: a timeout, or a network error
/// when connecting or sending failed.
pub open spec fn http_client_flagged(e: HttpClientFailure) -> ContextView {
    if e.is_timeout {
        ctx_category(http_client_base(e), AppErrorKind::Timeout)
    } else if e.is_connect || e.is_request {
        ctx_category(http_client_base(e), AppErrorKind::Network)
    } else {
        http_client_base(e)
    }
}

/// The reason phrase of the failure's status, when there is a status and
/// it has one.
pub open spec fn status_reason_of(e: HttpClientFailure) -> Option<&'static str> {
    match e.status {
        Some(status) => canonical_reason_of(status),
        None => None,
    }
}

/// The context with the status and its reason phrase `reason` recorded and
/// classified (429 is rate limiting with a one-second retry, 408 a timeout,
/// 5xx an unavailable dependency), and the retry delay.
pub open spec fn http_client_with_status(e: HttpClientFailure, reason: Option<&'static str>) -> (ContextView, Option<u64>) {
    match e.status {
        Some(status) => {
            let with_status = ctx_with(http_client_flagged(e), value_field("http.status", FieldValue::U64(status as u64)));
            let with_reason = match reason {
                Some(reason) => ctx_with(with_status, text_field("http.status_reason", Cow::Borrowed(reason))),
                None => with_status,
            };
            if status == 429 {
                (ctx_category(with_reason, AppErrorKind::RateLimited), Some(1u64))
            } else if status == 408 {
                (ctx_category(with_reason, AppErrorKind::Timeout), None)
            } else if 500 <= status <= 599 {
                (ctx_category(with_reason, AppErrorKind::DependencyUnavailable), None)
            } else {
                (with_reason, None)
            }
        },
        None => (http_client_flagged(e), None),
    }
}

/// The context with the URL recorded; the full URL is hashed.
pub open spec fn with_url(v: ContextView, url: UrlParts) -> ContextView {
    let with_text = ctx_redact_field(ctx_with(v, text_field("http.url", Cow::Owned(url.text))), "http.url"@, FieldRedaction::Hash);
    let with_host = match url.host {
        Some(h) => ctx_with(with_text, text_field("http.host", Cow::Owned(h))),
        None => with_text,
    };
    let with_port = match url.port {
        Some(p) => ctx_with(with_host, value_field("http.port", FieldValue::U64(p as u64))),
        None => with_host,
    };
    let with_path = if url.path@.len() > 0 { ctx_with(with_port, text_field("http.path", Cow::Owned(url.path))) } else { with_port };
    if url.scheme@.len() > 0 { ctx_with(with_path, text_field("http.scheme", Cow::Owned(url.scheme))) } else { with_path }
}

/// The context of a failed request whose status has the reason phrase
/// `reason`, and the retry delay it suggests.
pub open spec fn http_client_context(e: HttpClientFailure, reason: Option<&'static str>) -> (ContextView, Option<u64>) {
    let (v, retry) = http_client_with_status(e, reason);
    (match e.url {
        Some(url) => with_url(v, url),
        None => v,
    }, retry)
}

/// Starts the context of a failed request.
fn http_client_base_context(err: &HttpClientFailure) -> (r: Context)
    ensures
        r@ =~= http_client_base(*err),
{
    Context::new(AppErrorKind::ExternalApi)
        .with(field::bool("reqwest.is_timeout", err.is_timeout))
        .with(field::bool("reqwest.is_connect", err.is_connect))
        .with(field::bool("reqwest.is_request", err.is_request))
        .with(field::bool("reqwest.is_status", err.is_status))
        .with(field::bool("reqwest.is_body", err.is_body))
        .with(field::bool("reqwest.is_decode", err.is_decode))
        .with(field::bool("reqwest.is_redirect", err.is_redirect))
}

/// Records the URL.
fn add_url(context: Context, url: &UrlParts) -> (r: Context)
    ensures
        r@ == with_url(context@, *url),
{
    let mut context = context
        .with(field::str("http.url", url.text.clone()))
        .redact_field("http.url", FieldRedaction::Hash);
    if let Some(host) = &url.host {
        context = context.with(field::str("http.host", host.clone()));
    }
    if let Some(port) = url.port {
        context = context.with(field::u64("http.port", port as u64));
    }
    if url.path.as_str().unicode_len() > 0 {
        context = context.with(field::str("http.path", url.path.clone()));
    }
    if url.scheme.as_str().unicode_len() > 0 {
        context = context.with(field::str("http.scheme", url.scheme.clone()));
    }
    context
}

/// Classifies a failed request whose status has the reason phrase
/// `reason`: its context and retry delay.
pub fn classify_http_client_failure(err: &HttpClientFailure, reason: Option<&'static str>) -> (r: (Context, Option<u64>))
    ensures
        (r.0@, r.1) == http_client_context(*err, reason),
{
    let mut context = http_client_base_context(err);
    let mut retry_after: Option<u64> = None;
    if err.is_timeout {
        context = context.category(AppErrorKind::Timeout);
    } else if err.is_connect || err.is_request {
        context = context.category(AppErrorKind::Network);
    }
    assert(context@ == http_client_flagged(*err));
    if let Some(status) = err.status {
        context = context.with(field::u64("http.status", status as u64));
        if let Some(reason) = reason {
            context = context.with(field::str("http.status_reason", reason));
        }
        if status == 429 {
            retry_after = Some(1);
            context = context.category(AppErrorKind::RateLimited);
        } else if status == 408 {
            context = context.category(AppErrorKind::Timeout);
        } else if 500 <= status && status <= 599 {
            context = context.category(AppErrorKind::DependencyUnavailable);
        }
    }
    assert((context@, retry_after) == http_client_with_status(*err, reason));
    if let Some(url) = &err.url {
        context = add_url(context, url);
    }
    (context, retry_after)
}

/// Classifies a failed request: its context and retry delay, with the
/// status's canonical reason phrase recorded.
pub fn classify_http_client_error(err: &HttpClientFailure) -> (r: (Context, Option<u64>))
    ensures
        (r.0@, r.1) == http_client_context(*err, status_reason_of(*err)),
{
    let reason = match err.status {
        Some(status) => canonical_reason(status),
        None => None,
    };
    classify_http_client_failure(err, reason)
}

/// The error of a failed request, with the suggested retry advice, caused
/// by the given chain.
pub fn http_client_error(err: &HttpClientFailure, source_chain: Vec<String>) -> (r: Error)
    ensures
        built_error_with_retry(
            r,
            http_client_context(*err, status_reason_of(*err)).0,
            source_chain,
            http_client_context(*err, status_reason_of(*err)).1,
        ),
{
    let (context, retry) = classify_http_client_error(err);
    error_with_retry(context, retry, source_chain)
}

} // verus!
verus! {

/// The kind of a failed request: a server-error status (500 to 599) makes
/// it an unavailable dependency, 429 rate limiting (with a one-second
/// retry) and 408 a timeout, whatever the flags say; other statuses and a
/// missing status leave the flags to decide: a timeout, else a network
/// error when connecting or sending failed, else an external API error.
/// Only 429 suggests a retry.
pub proof fn law_http_client_kind(e: HttpClientFailure, reason: Option<&'static str>)
    ensures
        ({
            let (v, retry) = http_client_context(e, reason);
            let flagged = if e.is_timeout {
                AppErrorKind::Timeout
            } else if e.is_connect || e.is_request {
                AppErrorKind::Network
            } else {
                AppErrorKind::ExternalApi
            };
            &&& (e.status matches Some(s) && 500 <= s <= 599) ==> v.category == AppErrorKind::DependencyUnavailable
            &&& e.status == Some(429u16) ==> v.category == AppErrorKind::RateLimited && retry == Some(1u64)
            &&& e.status == Some(408u16) ==> v.category == AppErrorKind::Timeout
            &&& (e.status matches Some(s) && s != 429 && s != 408 && !(500 <= s <= 599)) ==> v.category == flagged
            &&& e.status is None ==> v.category == flagged
            &&& e.status != Some(429u16) ==> retry is None
        }),
{
    let (w, retry) = http_client_with_status(e, reason);
    match e.url {
        Some(url) => lemma_with_url_keeps_kind(w, url),
        None => {},
    }
}

/// Recording a URL leaves the kind alone.
proof fn lemma_with_url_keeps_kind(v: ContextView, url: UrlParts)
    ensures
        with_url(v, url).category == v.category,
{
}

} // verus!
