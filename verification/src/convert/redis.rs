//! Errors from the Redis client.

use std::borrow::Cow;

use vstd::prelude::*;

use crate::context::{
    built_context, built_error_with_retry, ctx_category, ctx_with, error_with_retry, text_field, value_field, Context,
    ContextView,
};
use crate::convert::config::with_optional_text;
use crate::error::Error;
use crate::field;
use crate::kind::AppErrorKind;
use crate::metadata::FieldValue;

verus! {

/// How the client suggests retrying a failed command.
#[derive(Debug, Clone, Copy, PartialEq, Eq, Structural)]
pub enum RetryMethod {
    /// Do not retry.
    NoRetry,
    /// Retry at once.
    RetryImmediately,
    /// Follow an `ASK` redirect.
    AskRedirect,
    /// Follow a `MOVED` redirect.
    MovedRedirect,
    /// Reconnect, then retry.
    Reconnect,
    /// Reconnect to the initial nodes, then retry.
    ReconnectFromInitialConnections,
    /// Wait, then retry.
    WaitAndRetry,
    /// A method this crate does not know.
    Other,
}

/// What a Redis failure tells about itself.
#[derive(Debug, Clone, PartialEq, Eq)]
pub struct RedisFailure {
    /// Name of the failure kind.
    pub kind: String,
    /// Category description.
    pub category: String,
    /// Whether it is a timeout.
    pub is_timeout: bool,
    /// Whether it comes from the cluster.
    pub is_cluster_error: bool,
    /// Whether the connection was refused.
    pub is_connection_refusal: bool,
    /// Whether the connection was dropped.
    pub is_connection_dropped: bool,
    /// Whether it is an I/O failure.
    pub is_io_error: bool,
    /// Whether the server is still loading its data set.
    pub is_busy_loading: bool,
    /// Server error code, when known.
    pub code: Option<String>,
    /// Node address and slot of a redirect, when there is one.
    pub redirect: Option<(String, u16)>,
    /// Suggested retry method.
    pub retry_method: RetryMethod,
}

/// Label of a retry method and the delay in seconds it suggests.
pub open spec fn retry_details(m: RetryMethod) -> (&'static str, Option<u64>) {
    match m {
        RetryMethod::NoRetry => ("NoRetry", None),
        RetryMethod::RetryImmediately => ("RetryImmediately", Some(0)),
        RetryMethod::AskRedirect => ("AskRedirect", Some(0)),
        RetryMethod::MovedRedirect => ("MovedRedirect", Some(0)),
        RetryMethod::Reconnect => ("Reconnect", Some(1)),
        RetryMethod::ReconnectFromInitialConnections => ("ReconnectFromInitialConnections", Some(1)),
        RetryMethod::WaitAndRetry => ("WaitAndRetry", Some(2)),
        RetryMethod::Other => ("Other", None),
    }
}

/// Label of a retry method and the delay in seconds it suggests.
pub fn retry_method_details(method: RetryMethod) -> (r: (&'static str, Option<u64>))
    ensures
        r == retry_details(method),
{
    match method {
        RetryMethod::NoRetry => ("NoRetry", None),
        RetryMethod::RetryImmediately => ("RetryImmediately", Some(0)),
        RetryMethod::AskRedirect => ("AskRedirect", Some(0)),
        RetryMethod::MovedRedirect => ("MovedRedirect", Some(0)),
        RetryMethod::Reconnect => ("Reconnect", Some(1)),
        RetryMethod::ReconnectFromInitialConnections => ("ReconnectFromInitialConnections", Some(1)),
        RetryMethod::WaitAndRetry => ("WaitAndRetry", Some(2)),
        RetryMethod::Other => ("Other", None),
    }
}

/// The kind of a Redis failure: a timeout, an unavailable dependency when
/// the connection or cluster failed, else a cache error.
pub open spec fn redis_kind(e: RedisFailure) -> AppErrorKind {
    if e.is_timeout {
        AppErrorKind::Timeout
    } else if e.is_connection_refusal || e.is_connection_dropped || e.is_cluster_error || e.is_io_error
        || e.is_busy_loading {
        AppErrorKind::DependencyUnavailable
    } else {
        AppErrorKind::Cache
    }
}

/// The context every Redis failure starts from: the cache kind with the
/// failure's kind, category and flags.
pub open spec fn redis_base(e: RedisFailure) -> ContextView {
    built_context(AppErrorKind::Cache, seq![
        text_field("redis.kind", Cow::Owned(e.kind)),
        text_field("redis.category", Cow::Owned(e.category)),
        value_field("redis.is_timeout", FieldValue::Bool(e.is_timeout)),
        value_field("redis.is_cluster_error", FieldValue::Bool(e.is_cluster_error)),
        value_field("redis.is_connection_refused", FieldValue::Bool(e.is_connection_refusal)),
        value_field("redis.is_connection_dropped", FieldValue::Bool(e.is_connection_dropped)),
    ])
}

/// The context with the code recorded and the kind classified.
pub open spec fn redis_classified(e: RedisFailure) -> ContextView {
    let with_code = with_optional_text(redis_base(e), "redis.code", e.code);
    if redis_kind(e) == AppErrorKind::Cache { with_code } else { ctx_category(with_code, redis_kind(e)) }
}

/// The context with the redirect recorded.
pub open spec fn redis_redirected(e: RedisFailure) -> ContextView {
    match e.redirect {
        Some((addr, slot)) => ctx_with(
            ctx_with(redis_classified(e), text_field("redis.redirect_addr", Cow::Owned(addr))),
            value_field("redis.redirect_slot", FieldValue::U64(slot as u64)),
        ),
        None => redis_classified(e),
    }
}

/// The context of a Redis failure and the retry delay it suggests.
pub open spec fn redis_context(e: RedisFailure) -> (ContextView, Option<u64>) {
    let (label, retry) = retry_details(e.retry_method);
    let labelled = ctx_with(redis_redirected(e), text_field("redis.retry_method", Cow::Borrowed(label)));
    (match retry {
        Some(secs) => ctx_with(labelled, value_field("redis.retry_after_hint_secs", FieldValue::U64(secs))),
        None => labelled,
    }, retry)
}

/// Starts the context of a Redis failure.
fn redis_base_context(err: &RedisFailure) -> (r: Context)
    ensures
        r@ =~= redis_base(*err),
{
    Context::new(AppErrorKind::Cache)
        .with(field::str("redis.kind", err.kind.clone()))
        .with(field::str("redis.category", err.category.clone()))
        .with(field::bool("redis.is_timeout", err.is_timeout))
        .with(field::bool("redis.is_cluster_error", err.is_cluster_error))
        .with(field::bool("redis.is_connection_refused", err.is_connection_refusal))
        .with(field::bool("redis.is_connection_dropped", err.is_connection_dropped))
}

/// Builds the context of a Redis failure and its retry delay.
pub fn build_redis_context(err: &RedisFailure) -> (r: (Context, Option<u64>))
    ensures
        (r.0@, r.1) =~= redis_context(*err),
{
    let mut context = redis_base_context(err);
    if let Some(code) = &err.code {
        context = context.with(field::str("redis.code", code.clone()));
    }
    if err.is_timeout {
        context = context.category(AppErrorKind::Timeout);
    } else if err.is_connection_refusal || err.is_connection_dropped || err.is_cluster_error || err.is_io_error
        || err.is_busy_loading {
        context = context.category(AppErrorKind::DependencyUnavailable);
    }
    assert(context@ == redis_classified(*err));
    if let Some((addr, slot)) = &err.redirect {
        context = context
            .with(field::str("redis.redirect_addr", addr.clone()))
            .with(field::u64("redis.redirect_slot", *slot as u64));
    }
    assert(context@ == redis_redirected(*err));
    let (label, retry_after) = retry_method_details(err.retry_method);
    context = context.with(field::str("redis.retry_method", label));
    if let Some(secs) = retry_after {
        context = context.with(field::u64("redis.retry_after_hint_secs", secs));
    }
    (context, retry_after)
}

/// The error of a Redis failure, with the suggested retry advice, caused by
/// the given chain.
pub fn redis_error(err: &RedisFailure, source_chain: Vec<String>) -> (r: Error)
    ensures
        built_error_with_retry(r, redis_context(*err).0, source_chain, redis_context(*err).1),
{
    let (context, retry) = build_redis_context(err);
    error_with_retry(context, retry, source_chain)
}

} // verus!
