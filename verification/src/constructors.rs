//! Canonical constructors, one per error kind.
//!
//! Each builds a fresh error of its kind carrying the given message.

use std::borrow::Cow;

use vstd::prelude::*;
use vstd::std_specs::convert::FromSpecImpl;

use crate::error::{has_message, is_fresh, Error};
use crate::kind::AppErrorKind;
use crate::message::IntoMessage;

verus! {

impl Error {
    /// Builds a `NotFound` error.
    pub fn not_found<M: IntoMessage>(msg: M) -> (r: Error)
        ensures
            is_fresh(r, AppErrorKind::NotFound),
            has_message(r, msg.message_text()),
    {
        Self::with(AppErrorKind::NotFound, msg)
    }

    /// Builds a `Validation` error.
    pub fn validation<M: IntoMessage>(msg: M) -> (r: Error)
        ensures
            is_fresh(r, AppErrorKind::Validation),
            has_message(r, msg.message_text()),
    {
        Self::with(AppErrorKind::Validation, msg)
    }

    /// Builds an `Unauthorized` error.
    pub fn unauthorized<M: IntoMessage>(msg: M) -> (r: Error)
        ensures
            is_fresh(r, AppErrorKind::Unauthorized),
            has_message(r, msg.message_text()),
    {
        Self::with(AppErrorKind::Unauthorized, msg)
    }

    /// Builds a `Forbidden` error.
    pub fn forbidden<M: IntoMessage>(msg: M) -> (r: Error)
        ensures
            is_fresh(r, AppErrorKind::Forbidden),
            has_message(r, msg.message_text()),
    {
        Self::with(AppErrorKind::Forbidden, msg)
    }

    /// Builds a `Conflict` error.
    pub fn conflict<M: IntoMessage>(msg: M) -> (r: Error)
        ensures
            is_fresh(r, AppErrorKind::Conflict),
            has_message(r, msg.message_text()),
    {
        Self::with(AppErrorKind::Conflict, msg)
    }

    /// Builds a `BadRequest` error.
    pub fn bad_request<M: IntoMessage>(msg: M) -> (r: Error)
        ensures
            is_fresh(r, AppErrorKind::BadRequest),
            has_message(r, msg.message_text()),
    {
        Self::with(AppErrorKind::BadRequest, msg)
    }

    /// Builds a `RateLimited` error.
    pub fn rate_limited<M: IntoMessage>(msg: M) -> (r: Error)
        ensures
            is_fresh(r, AppErrorKind::RateLimited),
            has_message(r, msg.message_text()),
    {
        Self::with(AppErrorKind::RateLimited, msg)
    }

    /// Builds a `TelegramAuth` error.
    pub fn telegram_auth<M: IntoMessage>(msg: M) -> (r: Error)
        ensures
            is_fresh(r, AppErrorKind::TelegramAuth),
            has_message(r, msg.message_text()),
    {
        Self::with(AppErrorKind::TelegramAuth, msg)
    }

    /// Builds an `Internal` error.
    pub fn internal<M: IntoMessage>(msg: M) -> (r: Error)
        ensures
            is_fresh(r, AppErrorKind::Internal),
            has_message(r, msg.message_text()),
    {
        Self::with(AppErrorKind::Internal, msg)
    }

    /// Builds a `Service` error.
    pub fn service<M: IntoMessage>(msg: M) -> (r: Error)
        ensures
            is_fresh(r, AppErrorKind::Service),
            has_message(r, msg.message_text()),
    {
        Self::with(AppErrorKind::Service, msg)
    }

    /// Builds a `Database` error with an optional message.
    pub fn database(msg: Option<Cow<'static, str>>) -> (r: Error)
        ensures
            is_fresh(r, AppErrorKind::Database),
            r.message == msg,
    {
        Self::new_raw(AppErrorKind::Database, msg)
    }

    /// Builds a `Database` error with a message.
    pub fn database_with_message<M: IntoMessage>(msg: M) -> (r: Error)
        ensures
            is_fresh(r, AppErrorKind::Database),
            has_message(r, msg.message_text()),
    {
        Self::database(Some(msg.into_message()))
    }

    /// Builds a `Config` error.
    pub fn config<M: IntoMessage>(msg: M) -> (r: Error)
        ensures
            is_fresh(r, AppErrorKind::Config),
            has_message(r, msg.message_text()),
    {
        Self::with(AppErrorKind::Config, msg)
    }

    /// Builds a `Turnkey` error.
    pub fn turnkey<M: IntoMessage>(msg: M) -> (r: Error)
        ensures
            is_fresh(r, AppErrorKind::Turnkey),
            has_message(r, msg.message_text()),
    {
        Self::with(AppErrorKind::Turnkey, msg)
    }

    /// Builds a `Timeout` error.
    pub fn timeout<M: IntoMessage>(msg: M) -> (r: Error)
        ensures
            is_fresh(r, AppErrorKind::Timeout),
            has_message(r, msg.message_text()),
    {
        Self::with(AppErrorKind::Timeout, msg)
    }

    /// Builds a `Network` error.
    pub fn network<M: IntoMessage>(msg: M) -> (r: Error)
        ensures
            is_fresh(r, AppErrorKind::Network),
            has_message(r, msg.message_text()),
    {
        Self::with(AppErrorKind::Network, msg)
    }

    /// Builds a `DependencyUnavailable` error.
    pub fn dependency_unavailable<M: IntoMessage>(msg: M) -> (r: Error)
        ensures
            is_fresh(r, AppErrorKind::DependencyUnavailable),
            has_message(r, msg.message_text()),
    {
        Self::with(AppErrorKind::DependencyUnavailable, msg)
    }

    /// Builds a `DependencyUnavailable` error (an unavailable service is an unavailable dependency).
    pub fn service_unavailable<M: IntoMessage>(msg: M) -> (r: Error)
        ensures
            is_fresh(r, AppErrorKind::DependencyUnavailable),
            has_message(r, msg.message_text()),
    {
        Self::with(AppErrorKind::DependencyUnavailable, msg)
    }

    /// Builds a `Serialization` error.
    pub fn serialization<M: IntoMessage>(msg: M) -> (r: Error)
        ensures
            is_fresh(r, AppErrorKind::Serialization),
            has_message(r, msg.message_text()),
    {
        Self::with(AppErrorKind::Serialization, msg)
    }

    /// Builds a `Deserialization` error.
    pub fn deserialization<M: IntoMessage>(msg: M) -> (r: Error)
        ensures
            is_fresh(r, AppErrorKind::Deserialization),
            has_message(r, msg.message_text()),
    {
        Self::with(AppErrorKind::Deserialization, msg)
    }

    /// Builds an `ExternalApi` error.
    pub fn external_api<M: IntoMessage>(msg: M) -> (r: Error)
        ensures
            is_fresh(r, AppErrorKind::ExternalApi),
            has_message(r, msg.message_text()),
    {
        Self::with(AppErrorKind::ExternalApi, msg)
    }

    /// Builds a `Queue` error.
    pub fn queue<M: IntoMessage>(msg: M) -> (r: Error)
        ensures
            is_fresh(r, AppErrorKind::Queue),
            has_message(r, msg.message_text()),
    {
        Self::with(AppErrorKind::Queue, msg)
    }

    /// Builds a `Cache` error.
    pub fn cache<M: IntoMessage>(msg: M) -> (r: Error)
        ensures
            is_fresh(r, AppErrorKind::Cache),
            has_message(r, msg.message_text()),
    {
        Self::with(AppErrorKind::Cache, msg)
    }
}

impl From<String> for Error {
    /// A plain string becomes a `BadRequest` error carrying it as message.
    fn from(value: String) -> (r: Error)
        ensures
            is_fresh(r, AppErrorKind::BadRequest),
            has_message(r, value@),
    {
        Error::bad_request(value)
    }
}

impl FromSpecImpl<String> for Error {
    open spec fn obeys_from_spec() -> bool {
        false
    }

    open spec fn from_spec(value: String) -> Error {
        arbitrary()
    }
}

} // verus!
