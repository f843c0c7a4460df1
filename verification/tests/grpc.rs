use std::borrow::Cow;

use masterror::convert::grpc::{is_ascii_metadata_value, is_safe_metadata_key, metadata_value_to_ascii, sanitize_detail, status_metadata};
use masterror::{field, AppError, AppErrorKind, FieldValue, MessageEditPolicy};

/// The value sent under a key, if any.
fn entry<'a>(entries: &'a [(String, String)], key: &str) -> Option<&'a str> {
    entries.iter().rev().find(|(k, _)| k == key).map(|(_, v)| v.as_str())
}

#[test]
fn redacted_errors_hide_metadata() {
    let err = AppError::internal("secret").redactable().with_field(field::str("request_id", "abc"));
    let detail = sanitize_detail(err.message.as_ref(), err.kind, err.edit_policy);
    assert_eq!(detail, AppErrorKind::Internal.to_string());
    let entries = status_metadata(&err, 500, "https://errors.example.com/internal");
    assert!(entry(&entries, "request_id").is_none());
}

#[test]
fn public_metadata_is_propagated() {
    let err = AppError::service("downstream").with_field(field::str("request_id", "abc")).with_field(field::u64("attempt", 2));
    let entries = status_metadata(&err, 500, "https://errors.example.com/service");
    assert_eq!(entry(&entries, "request_id"), Some("abc"));
    assert_eq!(entry(&entries, "attempt"), Some("2"));
}

#[test]
fn numeric_metadata_is_rendered_consistently() {
    let err = AppError::service("numbers").with_field(field::i64("signed", -42)).with_field(field::u64("unsigned", 9000));
    let entries = status_metadata(&err, 500, "https://errors.example.com/service");
    assert_eq!(entry(&entries, "signed"), Some("-42"));
    assert_eq!(entry(&entries, "unsigned"), Some("9000"));
}

#[test]
fn timeout_status_carries_ascii_metadata() {
    let err = AppError::timeout("deadline exceeded").with_retry_after_secs(7);
    let entries = status_metadata(&err, 504, "https://errors.example.com/timeout");
    assert_eq!(entry(&entries, "app-http-status"), Some("504"));
    assert_eq!(entry(&entries, "retry-after"), Some("7"));
    assert_eq!(entry(&entries, "app-code"), Some("TIMEOUT"));
}

#[test]
fn detail_prefers_message_unless_redacted() {
    let message: Cow<'static, str> = Cow::Borrowed("user 42 missing");
    assert_eq!(sanitize_detail(Some(&message), AppErrorKind::NotFound, MessageEditPolicy::Preserve), "user 42 missing");
    assert_eq!(sanitize_detail(Some(&message), AppErrorKind::NotFound, MessageEditPolicy::Redact), "Not found");
    assert_eq!(sanitize_detail(None, AppErrorKind::NotFound, MessageEditPolicy::Preserve), "Not found");
}

#[test]
fn metadata_keys_and_values_are_checked() {
    assert!(is_safe_metadata_key("request-id.v1_x"));
    assert!(!is_safe_metadata_key(""));
    assert!(!is_safe_metadata_key("Request-Id"));
    assert!(!is_safe_metadata_key("bad key"));
    assert!(is_ascii_metadata_value("Bearer realm=\"api\""));
    assert!(is_ascii_metadata_value(""));
    assert!(!is_ascii_metadata_value("line\nbreak"));
    assert!(!is_ascii_metadata_value("naïve"));
}

#[test]
fn non_ascii_values_and_unsafe_names_are_skipped() {
    let err = AppError::service("x")
        .with_field(field::str("greeting", "привет"))
        .with_field(field::str("Upper", "value"))
        .with_field(field::bool("cached", true))
        .with_www_authenticate("Bearer\u{7f}");
    let entries = status_metadata(&err, 500, "p");
    assert!(entry(&entries, "greeting").is_none());
    assert!(entry(&entries, "Upper").is_none());
    assert_eq!(entry(&entries, "cached"), Some("true"));
    assert!(entry(&entries, "www-authenticate").is_none());
}

#[test]
fn durations_are_sent_as_text() {
    assert_eq!(metadata_value_to_ascii(&FieldValue::Duration { secs: 1, nanos: 500_000_000 }), Some("1.5s".to_string()));
    assert_eq!(metadata_value_to_ascii(&FieldValue::Str(Cow::Borrowed("é"))), None);
}
