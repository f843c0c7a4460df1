//! Canonical application error taxonomy and its HTTP mapping.
//!
//! Each variant is a semantic category that maps to a transport status code.
//! The mapping is conservative and stable: infrastructure failures map to
//! 5xx, client failures to 4xx.

use vstd::prelude::*;

verus! {

/// `http::StatusCode`, carried without looking inside.
#[verifier::external_type_specification]
#[verifier::external_body]
pub struct ExStatusCode(http::StatusCode);

/// The `http::StatusCode` that `StatusCode::from_u16` gives for a number.
pub uninterp spec fn status_code_of(code: u16) -> http::StatusCode;

/// The number that `StatusCode::as_u16` gives for a status code.
pub uninterp spec fn status_number(status: http::StatusCode) -> u16;

/// `StatusCode::from_u16` from the `http` crate: a status code for every
/// number from 100 to 999, and an error otherwise; equal numbers give
/// equal codes, and the code made of a number reads back (`as_u16`) as
/// that number.
#[verifier::external_body]
fn status_from_u16(code: u16) -> (r: Option<http::StatusCode>)
    ensures
        r is Some <==> (100 <= code && code <= 999),
        r matches Some(s) ==> s == status_code_of(code),
        r matches Some(s) ==> status_number(s) == code,
{
    http::StatusCode::from_u16(code).ok()
}

/// `http::StatusCode::INTERNAL_SERVER_ERROR`.
#[verifier::external_body]
fn internal_server_error() -> (r: http::StatusCode)
    ensures
        r == status_code_of(500),
{
    http::StatusCode::INTERNAL_SERVER_ERROR
}

/// The reason phrase that `StatusCode::canonical_reason` gives for the
/// status with this number (`None` for numbers without one).
pub uninterp spec fn canonical_reason_of(code: u16) -> Option<&'static str>;

/// `StatusCode::canonical_reason` from the `http` crate, for the status
/// `StatusCode::from_u16` makes of the number: its registered reason phrase,
/// if it has one. Numbers outside 100 to 999 make no status and get none.
#[verifier::external_body]
pub(crate) fn canonical_reason(code: u16) -> (r: Option<&'static str>)
    ensures
        r == canonical_reason_of(code),
        !(100 <= code && code <= 999) ==> r is None,
{
    match http::StatusCode::from_u16(code) {
        Ok(status) => status.canonical_reason(),
        Err(_) => None,
    }
}

/// Canonical application error taxonomy.
#[derive(Debug, Clone, Copy, PartialEq, Eq, Structural)]
pub enum AppErrorKind {
    /// Resource does not exist or is not visible to the caller (404).
    NotFound,
    /// Input failed validation (422).
    Validation,
    /// State conflict with an existing resource (409).
    Conflict,
    /// Authentication required or failed (401).
    Unauthorized,
    /// Authenticated but not allowed (403).
    Forbidden,
    /// Operation is not implemented (501).
    NotImplemented,
    /// Unexpected server-side failure (500).
    Internal,
    /// Malformed request (400).
    BadRequest,
    /// Telegram authentication failure (401).
    TelegramAuth,
    /// Invalid JWT (401).
    InvalidJwt,
    /// Database failure (500).
    Database,
    /// Service-layer failure (500).
    Service,
    /// Configuration error (500).
    Config,
    /// Turnkey subsystem failure (500).
    Turnkey,
    /// Operation timed out (504).
    Timeout,
    /// Network-level error (503).
    Network,
    /// Rate limit exceeded (429).
    RateLimited,
    /// External dependency unavailable (503).
    DependencyUnavailable,
    /// Serialization failure (500).
    Serialization,
    /// Deserialization failure (500).
    Deserialization,
    /// Upstream API failure (500).
    ExternalApi,
    /// Queue processing failure (500).
    Queue,
    /// Cache subsystem failure (500).
    Cache,
}

/// HTTP status code of each kind.
pub open spec fn kind_status(kind: AppErrorKind) -> u16 {
    match kind {
        AppErrorKind::NotFound => 404,
        AppErrorKind::Validation => 422,
        AppErrorKind::Conflict => 409,
        AppErrorKind::Unauthorized => 401,
        AppErrorKind::InvalidJwt => 401,
        AppErrorKind::TelegramAuth => 401,
        AppErrorKind::Forbidden => 403,
        AppErrorKind::NotImplemented => 501,
        AppErrorKind::BadRequest => 400,
        AppErrorKind::RateLimited => 429,
        AppErrorKind::Timeout => 504,
        AppErrorKind::Network => 503,
        AppErrorKind::DependencyUnavailable => 503,
        _ => 500,
    }
}

/// Human-readable label of each kind.
pub open spec fn kind_label_text(kind: AppErrorKind) -> Seq<char> {
    match kind {
        AppErrorKind::NotFound => "Not found"@,
        AppErrorKind::Validation => "Validation error"@,
        AppErrorKind::Conflict => "Conflict"@,
        AppErrorKind::Unauthorized => "Unauthorized"@,
        AppErrorKind::Forbidden => "Forbidden"@,
        AppErrorKind::NotImplemented => "Not implemented"@,
        AppErrorKind::Internal => "Internal server error"@,
        AppErrorKind::BadRequest => "Bad request"@,
        AppErrorKind::TelegramAuth => "Telegram authentication error"@,
        AppErrorKind::InvalidJwt => "Invalid JWT"@,
        AppErrorKind::Database => "Database error"@,
        AppErrorKind::Service => "Service error"@,
        AppErrorKind::Config => "Configuration error"@,
        AppErrorKind::Turnkey => "Turnkey error"@,
        AppErrorKind::Timeout => "Operation timed out"@,
        AppErrorKind::Network => "Network error"@,
        AppErrorKind::RateLimited => "Rate limit exceeded"@,
        AppErrorKind::DependencyUnavailable => "External dependency unavailable"@,
        AppErrorKind::Serialization => "Serialization error"@,
        AppErrorKind::Deserialization => "Deserialization error"@,
        AppErrorKind::ExternalApi => "External API error"@,
        AppErrorKind::Queue => "Queue processing error"@,
        AppErrorKind::Cache => "Cache error"@,
    }
}

/// Name of each kind's variant, as its debug form prints it.
pub open spec fn kind_debug_name(kind: AppErrorKind) -> Seq<char> {
    match kind {
        AppErrorKind::NotFound => "NotFound"@,
        AppErrorKind::Validation => "Validation"@,
        AppErrorKind::Conflict => "Conflict"@,
        AppErrorKind::Unauthorized => "Unauthorized"@,
        AppErrorKind::Forbidden => "Forbidden"@,
        AppErrorKind::NotImplemented => "NotImplemented"@,
        AppErrorKind::Internal => "Internal"@,
        AppErrorKind::BadRequest => "BadRequest"@,
        AppErrorKind::TelegramAuth => "TelegramAuth"@,
        AppErrorKind::InvalidJwt => "InvalidJwt"@,
        AppErrorKind::Database => "Database"@,
        AppErrorKind::Service => "Service"@,
        AppErrorKind::Config => "Config"@,
        AppErrorKind::Turnkey => "Turnkey"@,
        AppErrorKind::Timeout => "Timeout"@,
        AppErrorKind::Network => "Network"@,
        AppErrorKind::RateLimited => "RateLimited"@,
        AppErrorKind::DependencyUnavailable => "DependencyUnavailable"@,
        AppErrorKind::Serialization => "Serialization"@,
        AppErrorKind::Deserialization => "Deserialization"@,
        AppErrorKind::ExternalApi => "ExternalApi"@,
        AppErrorKind::Queue => "Queue"@,
        AppErrorKind::Cache => "Cache"@,
    }
}

impl AppErrorKind {
    /// Human-readable label exposed in HTTP and telemetry payloads.
    pub fn label(&self) -> (r: &'static str)
        ensures
            r@ == kind_label_text(*self),
    {
        match self {
            AppErrorKind::NotFound => "Not found",
            AppErrorKind::Validation => "Validation error",
            AppErrorKind::Conflict => "Conflict",
            AppErrorKind::Unauthorized => "Unauthorized",
            AppErrorKind::Forbidden => "Forbidden",
            AppErrorKind::NotImplemented => "Not implemented",
            AppErrorKind::Internal => "Internal server error",
            AppErrorKind::BadRequest => "Bad request",
            AppErrorKind::TelegramAuth => "Telegram authentication error",
            AppErrorKind::InvalidJwt => "Invalid JWT",
            AppErrorKind::Database => "Database error",
            AppErrorKind::Service => "Service error",
            AppErrorKind::Config => "Configuration error",
            AppErrorKind::Turnkey => "Turnkey error",
            AppErrorKind::Timeout => "Operation timed out",
            AppErrorKind::Network => "Network error",
            AppErrorKind::RateLimited => "Rate limit exceeded",
            AppErrorKind::DependencyUnavailable => "External dependency unavailable",
            AppErrorKind::Serialization => "Serialization error",
            AppErrorKind::Deserialization => "Deserialization error",
            AppErrorKind::ExternalApi => "External API error",
            AppErrorKind::Queue => "Queue processing error",
            AppErrorKind::Cache => "Cache error",
        }
    }

    /// Framework-agnostic mapping to an HTTP status code.
    pub fn http_status(&self) -> (r: u16)
        ensures
            r == kind_status(*self),
    {
        match self {
            AppErrorKind::NotFound => 404,
            AppErrorKind::Validation => 422,
            AppErrorKind::Conflict => 409,
            AppErrorKind::Unauthorized | AppErrorKind::InvalidJwt | AppErrorKind::TelegramAuth => 401,
            AppErrorKind::Forbidden => 403,
            AppErrorKind::NotImplemented => 501,
            AppErrorKind::BadRequest => 400,
            AppErrorKind::RateLimited => 429,
            AppErrorKind::Timeout => 504,
            AppErrorKind::Network | AppErrorKind::DependencyUnavailable => 503,
            _ => 500,
        }
    }

    /// Name of the variant (the debug form used in JSON payloads).
    pub fn debug_name(&self) -> (r: &'static str)
        ensures
            r@ == kind_debug_name(*self),
    {
        match self {
            AppErrorKind::NotFound => "NotFound",
            AppErrorKind::Validation => "Validation",
            AppErrorKind::Conflict => "Conflict",
            AppErrorKind::Unauthorized => "Unauthorized",
            AppErrorKind::Forbidden => "Forbidden",
            AppErrorKind::NotImplemented => "NotImplemented",
            AppErrorKind::Internal => "Internal",
            AppErrorKind::BadRequest => "BadRequest",
            AppErrorKind::TelegramAuth => "TelegramAuth",
            AppErrorKind::InvalidJwt => "InvalidJwt",
            AppErrorKind::Database => "Database",
            AppErrorKind::Service => "Service",
            AppErrorKind::Config => "Config",
            AppErrorKind::Turnkey => "Turnkey",
            AppErrorKind::Timeout => "Timeout",
            AppErrorKind::Network => "Network",
            AppErrorKind::RateLimited => "RateLimited",
            AppErrorKind::DependencyUnavailable => "DependencyUnavailable",
            AppErrorKind::Serialization => "Serialization",
            AppErrorKind::Deserialization => "Deserialization",
            AppErrorKind::ExternalApi => "ExternalApi",
            AppErrorKind::Queue => "Queue",
            AppErrorKind::Cache => "Cache",
        }
    }

    /// The kind's status as an `http::StatusCode`.
    pub fn status_code(&self) -> (r: http::StatusCode)
        ensures
            r == status_code_of(kind_status(*self)),
            status_number(r) == kind_status(*self),
    {
        match status_from_u16(self.http_status()) {
            Some(status) => status,
            None => internal_server_error(),
        }
    }

    /// The kind's display form: its label.
    pub fn to_string(&self) -> (r: String)
        ensures
            r@ == kind_label_text(*self),
    {
        self.label().to_owned()
    }

    /// Whether the kind is a server-side failure (status 500 or above).
    pub fn is_critical(&self) -> (r: bool)
        ensures
            r == (kind_status(*self) >= 500),
    {
        self.http_status() >= 500
    }
}

/// Every kind maps to an HTTP error status: a client error (4xx) or a
/// server error (5xx).
pub proof fn law_kind_status_is_error_status(kind: AppErrorKind)
    ensures
        400 <= kind_status(kind) <= 599,
{
}

} // verus!
