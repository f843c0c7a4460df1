use masterror::{field, AppCode, AppErrorKind, AppResult, DisplayMode, Error, FieldValue, MessageEditPolicy};
use std::io::Error as IoError;

#[test]
fn error_new_creates_error_with_message() {
    let err = Error::new(AppErrorKind::BadRequest, "invalid input");
    assert_eq!(err.kind, AppErrorKind::BadRequest);
    assert_eq!(err.message.as_deref(), Some("invalid input"));
}

#[test]
fn error_with_creates_error_with_message() {
    let err = Error::with(AppErrorKind::NotFound, "not found");
    assert_eq!(err.kind, AppErrorKind::NotFound);
    assert_eq!(err.message.as_deref(), Some("not found"));
}

#[test]
fn error_bare_creates_error_without_message() {
    let err = Error::bare(AppErrorKind::Internal);
    assert_eq!(err.kind, AppErrorKind::Internal);
    assert!(err.message.is_none());
}

#[test]
fn error_with_code_overrides_code() {
    let err = Error::new(AppErrorKind::BadRequest, "test").with_code(AppCode::NotFound);
    assert_eq!(err.code, AppCode::NotFound);
}

#[test]
fn error_with_retry_after_secs_sets_retry() {
    let err = Error::new(AppErrorKind::RateLimited, "slow down").with_retry_after_secs(60);
    assert_eq!(err.retry.map(|r| r.after_seconds), Some(60));
}

#[test]
fn error_with_www_authenticate_sets_header() {
    let err = Error::new(AppErrorKind::Unauthorized, "auth required")
        .with_www_authenticate("Bearer realm=\"api\"");
    assert_eq!(
        err.www_authenticate.as_deref(),
        Some("Bearer realm=\"api\"")
    );
}

#[test]
fn error_with_field_adds_metadata() {
    let err = Error::new(AppErrorKind::Validation, "bad field")
        .with_field(field::str("field_name", "email"));
    assert_eq!(
        err.metadata().get("field_name"),
        Some(&FieldValue::Str("email".into()))
    );
}

#[test]
fn error_with_fields_adds_multiple_metadata() {
    let fields = vec![field::str("key1", "value1"), field::str("key2", "value2")];
    let err = Error::new(AppErrorKind::BadRequest, "test").with_fields(fields);
    assert!(err.metadata().get("key1").is_some());
    assert!(err.metadata().get("key2").is_some());
}

#[test]
fn error_redactable_sets_edit_policy() {
    let err = Error::new(AppErrorKind::Internal, "secret").redactable();
    assert_eq!(err.edit_policy, MessageEditPolicy::Redact);
}

#[test]
fn error_with_source_attaches_source() {

    let io_err = IoError::other("disk error");
    let err = Error::new(AppErrorKind::Internal, "fail").with_source_chain(vec![io_err.to_string()]);
    assert!(err.has_source());
}

#[test]
fn error_with_context_attaches_source() {

    let io_err = IoError::other("network error");
    let err = Error::new(AppErrorKind::Network, "fail").with_source_chain(vec![io_err.to_string()]);
    assert!(err.has_source());
}

#[test]
fn error_metadata_returns_metadata() {
    let err =
        Error::new(AppErrorKind::Internal, "test").with_field(field::str("test", "value"));
    let metadata = err.metadata();
    assert!(!metadata.is_empty());
}

#[test]
fn error_render_message_returns_message_when_present() {
    let err = Error::new(AppErrorKind::BadRequest, "custom message");
    assert_eq!(err.render_message(), "custom message");
}

#[test]
fn error_render_message_returns_kind_label_when_no_message() {
    let err = Error::bare(AppErrorKind::NotFound);
    assert!(!err.render_message().is_empty());
}

#[test]
fn error_display_shows_kind() {
    let err = Error::new(AppErrorKind::Internal, "test");
    let display = err.render(DisplayMode::Local);
    assert!(!display.is_empty());
}

#[test]
fn app_result_type_alias_works() {
    let result: AppResult<u8> = Ok(42);
    assert!(result.is_ok());
    if let Ok(value) = result {
        assert_eq!(value, 42);
    }
}

#[test]
fn message_edit_policy_default_is_preserve() {
    assert_eq!(MessageEditPolicy::default(), MessageEditPolicy::Preserve);
}

#[test]
fn error_with_backtrace_attaches_backtrace() {
    let bt = std::backtrace::Backtrace::capture();
    let err = Error::new(AppErrorKind::Internal, "test").with_backtrace(bt);
    assert!(err.backtrace.is_some());
}

#[test]
fn error_with_shared_backtrace_reuses_arc() {
    let bt = std::sync::Arc::new(std::backtrace::Backtrace::capture());
    let bt_clone = std::sync::Arc::clone(&bt);
    let err = Error::new(AppErrorKind::Internal, "test").with_shared_backtrace(bt);

    assert!(err.backtrace.is_some());
    assert_eq!(std::sync::Arc::strong_count(&bt_clone), 2);
}
