use std::borrow::Cow;

use masterror::{field, AppCode, AppError, AppErrorKind, AppResult, FieldRedaction, FieldValue, MessageEditPolicy, Metadata};

/// Assert helper: kind and message match.
fn assert_err_with_msg(err: AppError, expected: AppErrorKind, msg: &str) {
    assert!(matches!(err.kind, k if k == expected), "expected kind {:?}, got {:?}", expected, err.kind);
    assert_eq!(err.message.as_deref(), Some(msg));
}

/// Assert helper: kind matches and message is None.
fn assert_err_bare(err: AppError, expected: AppErrorKind) {
    assert!(matches!(err.kind, k if k == expected), "expected kind {:?}, got {:?}", expected, err.kind);
    assert!(err.message.is_none());
}

#[test]
fn constructors_match_kinds() {
    assert_err_with_msg(
        AppError::not_found("missing"),
        AppErrorKind::NotFound,
        "missing"
    );
    assert_err_with_msg(
        AppError::validation("invalid"),
        AppErrorKind::Validation,
        "invalid"
    );
    assert_err_with_msg(
        AppError::unauthorized("need token"),
        AppErrorKind::Unauthorized,
        "need token"
    );
    assert_err_with_msg(
        AppError::forbidden("no access"),
        AppErrorKind::Forbidden,
        "no access"
    );
    assert_err_with_msg(AppError::conflict("dup"), AppErrorKind::Conflict, "dup");
    assert_err_with_msg(
        AppError::bad_request("bad"),
        AppErrorKind::BadRequest,
        "bad"
    );
    assert_err_with_msg(
        AppError::rate_limited("slow"),
        AppErrorKind::RateLimited,
        "slow"
    );
    assert_err_with_msg(
        AppError::telegram_auth("fail"),
        AppErrorKind::TelegramAuth,
        "fail"
    );
    assert_err_with_msg(AppError::internal("oops"), AppErrorKind::Internal, "oops");
    assert_err_with_msg(AppError::service("down"), AppErrorKind::Service, "down");
    assert_err_with_msg(AppError::config("bad cfg"), AppErrorKind::Config, "bad cfg");
    assert_err_with_msg(
        AppError::turnkey("turnkey"),
        AppErrorKind::Turnkey,
        "turnkey"
    );
    assert_err_with_msg(
        AppError::timeout("timeout"),
        AppErrorKind::Timeout,
        "timeout"
    );
    assert_err_with_msg(AppError::network("net"), AppErrorKind::Network, "net");
    assert_err_with_msg(
        AppError::dependency_unavailable("dep"),
        AppErrorKind::DependencyUnavailable,
        "dep"
    );
    assert_err_with_msg(
        AppError::service_unavailable("dep"),
        AppErrorKind::DependencyUnavailable,
        "dep"
    );
    assert_err_with_msg(
        AppError::serialization("ser"),
        AppErrorKind::Serialization,
        "ser"
    );
    assert_err_with_msg(
        AppError::deserialization("deser"),
        AppErrorKind::Deserialization,
        "deser"
    );
    assert_err_with_msg(
        AppError::external_api("external"),
        AppErrorKind::ExternalApi,
        "external"
    );
    assert_err_with_msg(AppError::queue("queue"), AppErrorKind::Queue, "queue");
    assert_err_with_msg(AppError::cache("cache"), AppErrorKind::Cache, "cache");
}

#[test]
fn database_accepts_optional_message() {
    let with_msg = AppError::database_with_message("db down");
    assert_err_with_msg(with_msg, AppErrorKind::Database, "db down");
    let via_option = AppError::database(Some(Cow::Borrowed("db down")));
    assert_err_with_msg(via_option, AppErrorKind::Database, "db down");
    let without = AppError::database(None);
    assert_err_bare(without, AppErrorKind::Database);
}

#[test]
fn bare_sets_kind_without_message() {
    assert_err_bare(
        AppError::bare(AppErrorKind::Internal),
        AppErrorKind::Internal
    );
}

#[test]
fn render_message_returns_borrowed_label_for_bare_errors() {
    let err = AppError::bare(AppErrorKind::Forbidden);
    let rendered = err.render_message();
    assert!(matches!(
        rendered,
        Cow::Borrowed(label) if label == AppErrorKind::Forbidden.label()
    ));
}

#[test]
fn retry_and_www_authenticate_are_attached() {
    let err = AppError::internal("boom")
        .with_retry_after_secs(30)
        .with_www_authenticate("Bearer");
    assert_eq!(err.retry.unwrap().after_seconds, 30);
    assert_eq!(err.www_authenticate.as_deref(), Some("Bearer"));
}

#[test]
fn render_message_does_not_allocate_for_borrowed_str() {
    let err = AppError::new(AppErrorKind::BadRequest, "borrowed");
    let rendered = err.render_message();
    assert!(matches!(rendered, Cow::Borrowed("borrowed")));
    assert!(std::ptr::eq(rendered.as_ref(), "borrowed"));
}

#[test]
fn metadata_and_code_are_preserved() {
    let err = AppError::service("downstream")
        .with_field(field::str("request_id", "abc-123"))
        .with_field(field::i64("attempt", 2))
        .with_code(AppCode::Service);
    assert_eq!(err.code, AppCode::Service);
    let metadata = err.metadata();
    assert_eq!(metadata.len(), 2);
    assert_eq!(
        metadata.get("request_id"),
        Some(&FieldValue::Str(Cow::Borrowed("abc-123")))
    );
    assert_eq!(metadata.get("attempt"), Some(&FieldValue::I64(2)));
}

#[test]
fn with_details_text_attaches_payload() {
    let err = AppError::internal("boom").with_details_text("retry later");
    assert_eq!(err.details.as_deref(), Some("retry later"));
}

#[test]
fn context_with_preserves_default_redaction() {
    let err = masterror::Context::new(AppErrorKind::Service)
        .with(field::str("request_id", "abc-123"))
        .into_error(vec!["dummy failure".to_string()]);
    let metadata = err.metadata();
    assert_eq!(metadata.len(), 1);
    assert_eq!(
        metadata.get("request_id"),
        Some(&FieldValue::Str(Cow::Borrowed("abc-123")))
    );
    assert_eq!(metadata.redaction("request_id"), Some(FieldRedaction::Preserve));
}

#[test]
fn context_redact_field_overrides_policy() {
    let err = masterror::Context::new(AppErrorKind::Service)
        .with(field::str("token", "super-secret"))
        .redact_field("token", FieldRedaction::Redact)
        .into_error(vec!["dummy failure".to_string()]);
    let metadata = err.metadata();
    assert_eq!(
        metadata.get("token"),
        Some(&FieldValue::Str(Cow::Borrowed("super-secret")))
    );
    assert_eq!(metadata.redaction("token"), Some(FieldRedaction::Redact));
}

#[test]
fn context_redact_field_before_insertion_applies_policy() {
    let err = masterror::Context::new(AppErrorKind::Service)
        .redact_field("token", FieldRedaction::Hash)
        .with(field::str("token", "super-secret"))
        .into_error(vec!["dummy failure".to_string()]);
    let metadata = err.metadata();
    assert_eq!(
        metadata.get("token"),
        Some(&FieldValue::Str(Cow::Borrowed("super-secret")))
    );
    assert_eq!(metadata.redaction("token"), Some(FieldRedaction::Hash));
}

#[test]
fn context_redact_field_mut_applies_policies() {
    let mut context = masterror::Context::new(AppErrorKind::Service);
    let _ = context.redact_field_mut("token", FieldRedaction::Hash);
    context = context.with(field::str("token", "super-secret"));
    let err = context.into_error(vec!["dummy failure".to_string()]);
    let metadata = err.metadata();
    assert_eq!(
        metadata.get("token"),
        Some(&FieldValue::Str(Cow::Borrowed("super-secret")))
    );
    assert_eq!(metadata.redaction("token"), Some(FieldRedaction::Hash));
}

#[test]
fn context_with_uses_latest_matching_policy() {
    let err = masterror::Context::new(AppErrorKind::Service)
        .redact_field("token", FieldRedaction::Hash)
        .redact_field("token", FieldRedaction::Redact)
        .with(field::str("token", "super-secret"))
        .into_error(vec!["dummy failure".to_string()]);
    let metadata = err.metadata();
    assert_eq!(
        metadata.get("token"),
        Some(&FieldValue::Str(Cow::Borrowed("super-secret")))
    );
    assert_eq!(metadata.redaction("token"), Some(FieldRedaction::Redact));
}

#[test]
fn app_error_redact_field_updates_metadata() {
    let err = AppError::internal("boom")
        .with_field(field::str("api_key", "key"))
        .redact_field("api_key", FieldRedaction::Hash);
    assert_eq!(
        err.metadata().redaction("api_key"),
        Some(FieldRedaction::Hash)
    );
    assert_eq!(
        err.metadata().get("api_key"),
        Some(&FieldValue::Str(Cow::Borrowed("key")))
    );
}

#[test]
fn redactable_policy_is_exposed() {
    let err = AppError::internal("boom").redactable();
    assert!(matches!(err.edit_policy, MessageEditPolicy::Redact));
}

#[test]
fn result_alias_is_generic() {
    let default_result: AppResult<u8> = Ok(1);
    let custom_result: AppResult<u8, &'static str> = Ok(2);
    assert!(matches!(default_result, Ok(value) if value == 1));
    assert!(matches!(custom_result, Ok(value) if value == 2));
}

#[test]
fn with_metadata_replaces_all_metadata() {
    let err = AppError::internal("test")
        .with_field(field::str("key1", "value1"))
        .with_field(field::u64("key2", 42));
    let new_metadata = Metadata::from_fields(vec![
        field::str("new_key", "new_value"),
        field::u64("count", 100),
    ]);
    let err = err.with_metadata(new_metadata);
    let metadata = err.metadata();
    assert!(metadata.get("new_key").is_some());
    assert!(metadata.get("count").is_some());
    assert!(metadata.get("key1").is_none());
    assert!(metadata.get("key2").is_none());
}

#[test]
fn not_found_constructor_creates_correct_kind() {
    let err = AppError::not_found("resource not found");
    assert_eq!(err.kind, AppErrorKind::NotFound);
    assert_eq!(err.message.as_deref(), Some("resource not found"));
}

#[test]
fn not_found_accepts_string() {
    let err = AppError::not_found("test".to_string());
    assert_eq!(err.message.as_deref(), Some("test"));
}

#[test]
fn not_found_accepts_cow_borrowed() {
    let err = AppError::not_found(Cow::Borrowed("borrowed"));
    assert_eq!(err.message.as_deref(), Some("borrowed"));
}

#[test]
fn not_found_accepts_cow_owned() {
    let err = AppError::not_found(Cow::Owned("owned".to_string()));
    assert_eq!(err.message.as_deref(), Some("owned"));
}

#[test]
fn validation_constructor_creates_correct_kind() {
    let err = AppError::validation("invalid input");
    assert_eq!(err.kind, AppErrorKind::Validation);
    assert_eq!(err.message.as_deref(), Some("invalid input"));
}

#[test]
fn unauthorized_constructor_creates_correct_kind() {
    let err = AppError::unauthorized("missing token");
    assert_eq!(err.kind, AppErrorKind::Unauthorized);
    assert_eq!(err.message.as_deref(), Some("missing token"));
}

#[test]
fn forbidden_constructor_creates_correct_kind() {
    let err = AppError::forbidden("access denied");
    assert_eq!(err.kind, AppErrorKind::Forbidden);
    assert_eq!(err.message.as_deref(), Some("access denied"));
}

#[test]
fn conflict_constructor_creates_correct_kind() {
    let err = AppError::conflict("resource exists");
    assert_eq!(err.kind, AppErrorKind::Conflict);
    assert_eq!(err.message.as_deref(), Some("resource exists"));
}

#[test]
fn bad_request_constructor_creates_correct_kind() {
    let err = AppError::bad_request("malformed request");
    assert_eq!(err.kind, AppErrorKind::BadRequest);
    assert_eq!(err.message.as_deref(), Some("malformed request"));
}

#[test]
fn rate_limited_constructor_creates_correct_kind() {
    let err = AppError::rate_limited("too many requests");
    assert_eq!(err.kind, AppErrorKind::RateLimited);
    assert_eq!(err.message.as_deref(), Some("too many requests"));
}

#[test]
fn telegram_auth_constructor_creates_correct_kind() {
    let err = AppError::telegram_auth("invalid telegram auth");
    assert_eq!(err.kind, AppErrorKind::TelegramAuth);
    assert_eq!(err.message.as_deref(), Some("invalid telegram auth"));
}

#[test]
fn internal_constructor_creates_correct_kind() {
    let err = AppError::internal("unexpected error");
    assert_eq!(err.kind, AppErrorKind::Internal);
    assert_eq!(err.message.as_deref(), Some("unexpected error"));
}

#[test]
fn service_constructor_creates_correct_kind() {
    let err = AppError::service("service failure");
    assert_eq!(err.kind, AppErrorKind::Service);
    assert_eq!(err.message.as_deref(), Some("service failure"));
}

#[test]
fn database_constructor_with_none_creates_correct_kind() {
    let err = AppError::database(None);
    assert_eq!(err.kind, AppErrorKind::Database);
    assert!(err.message.is_none());
}

#[test]
fn database_constructor_with_some_creates_correct_kind() {
    let err = AppError::database(Some(Cow::Borrowed("connection failed")));
    assert_eq!(err.kind, AppErrorKind::Database);
    assert_eq!(err.message.as_deref(), Some("connection failed"));
}

#[test]
fn database_with_message_creates_correct_kind() {
    let err = AppError::database_with_message("query timeout");
    assert_eq!(err.kind, AppErrorKind::Database);
    assert_eq!(err.message.as_deref(), Some("query timeout"));
}

#[test]
fn database_with_message_accepts_string() {
    let err = AppError::database_with_message("test".to_string());
    assert_eq!(err.message.as_deref(), Some("test"));
}

#[test]
fn config_constructor_creates_correct_kind() {
    let err = AppError::config("missing configuration");
    assert_eq!(err.kind, AppErrorKind::Config);
    assert_eq!(err.message.as_deref(), Some("missing configuration"));
}

#[test]
fn turnkey_constructor_creates_correct_kind() {
    let err = AppError::turnkey("turnkey error");
    assert_eq!(err.kind, AppErrorKind::Turnkey);
    assert_eq!(err.message.as_deref(), Some("turnkey error"));
}

#[test]
fn timeout_constructor_creates_correct_kind() {
    let err = AppError::timeout("operation timeout");
    assert_eq!(err.kind, AppErrorKind::Timeout);
    assert_eq!(err.message.as_deref(), Some("operation timeout"));
}

#[test]
fn network_constructor_creates_correct_kind() {
    let err = AppError::network("connection lost");
    assert_eq!(err.kind, AppErrorKind::Network);
    assert_eq!(err.message.as_deref(), Some("connection lost"));
}

#[test]
fn dependency_unavailable_constructor_creates_correct_kind() {
    let err = AppError::dependency_unavailable("service down");
    assert_eq!(err.kind, AppErrorKind::DependencyUnavailable);
    assert_eq!(err.message.as_deref(), Some("service down"));
}

#[test]
fn service_unavailable_alias_maps_to_dependency_unavailable() {
    let err = AppError::service_unavailable("unavailable");
    assert_eq!(err.kind, AppErrorKind::DependencyUnavailable);
    assert_eq!(err.message.as_deref(), Some("unavailable"));
}

#[test]
fn serialization_constructor_creates_correct_kind() {
    let err = AppError::serialization("serialize failed");
    assert_eq!(err.kind, AppErrorKind::Serialization);
    assert_eq!(err.message.as_deref(), Some("serialize failed"));
}

#[test]
fn deserialization_constructor_creates_correct_kind() {
    let err = AppError::deserialization("deserialize failed");
    assert_eq!(err.kind, AppErrorKind::Deserialization);
    assert_eq!(err.message.as_deref(), Some("deserialize failed"));
}

#[test]
fn external_api_constructor_creates_correct_kind() {
    let err = AppError::external_api("api error");
    assert_eq!(err.kind, AppErrorKind::ExternalApi);
    assert_eq!(err.message.as_deref(), Some("api error"));
}

#[test]
fn queue_constructor_creates_correct_kind() {
    let err = AppError::queue("queue full");
    assert_eq!(err.kind, AppErrorKind::Queue);
    assert_eq!(err.message.as_deref(), Some("queue full"));
}

#[test]
fn cache_constructor_creates_correct_kind() {
    let err = AppError::cache("cache miss");
    assert_eq!(err.kind, AppErrorKind::Cache);
    assert_eq!(err.message.as_deref(), Some("cache miss"));
}

#[test]
fn constructors_accept_empty_strings() {
    let err = AppError::internal("");
    assert_eq!(err.message.as_deref(), Some(""));
    let err = AppError::validation("");
    assert_eq!(err.message.as_deref(), Some(""));
}

#[test]
fn constructors_accept_unicode_messages() {
    let err = AppError::not_found("リソースが見つかりません");
    assert_eq!(err.message.as_deref(), Some("リソースが見つかりません"));
    let err = AppError::validation("Неверный ввод");
    assert_eq!(err.message.as_deref(), Some("Неверный ввод"));
}

#[test]
fn constructors_accept_long_messages() {
    let long_msg = "x".repeat(10000);
    let err = AppError::internal(long_msg.clone());
    assert_eq!(err.message.as_deref(), Some(long_msg.as_str()));
}

#[test]
fn constructors_accept_static_str() {
    const STATIC_MSG: &str = "static message";
    let err = AppError::not_found(STATIC_MSG);
    assert_eq!(err.message.as_deref(), Some(STATIC_MSG));
}

#[test]
fn backtrace_respects_disabled_env() {
    let mut state = masterror::backtrace::BacktraceState::new();
    masterror::backtrace::set_backtrace_preference_override(&mut state, Some(false));
    let mut err = AppError::internal("boom");
    assert!(err.backtrace(&mut state, None).is_none());
}

#[test]
fn backtrace_enabled_when_env_requests() {
    let mut state = masterror::backtrace::BacktraceState::new();
    masterror::backtrace::set_backtrace_preference_override(&mut state, Some(true));
    let mut err = AppError::internal("boom");
    assert!(err.backtrace(&mut state, None).is_some());
}

#[test]
fn attached_backtrace_wins_over_capture_decision() {
    let mut state = masterror::backtrace::BacktraceState::new();
    masterror::backtrace::set_backtrace_preference_override(&mut state, Some(false));
    let mut err = AppError::internal("boom").with_backtrace(std::backtrace::Backtrace::disabled());
    assert!(err.backtrace(&mut state, None).is_some());
    assert_eq!(state.cached, masterror::backtrace::BACKTRACE_STATE_UNSET);
}

#[test]
fn captured_backtrace_is_kept_for_later_requests() {
    let mut state = masterror::backtrace::BacktraceState::new();
    masterror::backtrace::set_backtrace_preference_override(&mut state, Some(true));
    let mut err = AppError::internal("boom");
    assert!(err.backtrace(&mut state, None).is_some());
    masterror::backtrace::reset_backtrace_preference(&mut state);
    masterror::backtrace::set_backtrace_preference_override(&mut state, Some(false));
    assert!(err.backtrace(&mut state, None).is_some());
}

#[test]
fn context_moves_dynamic_code_without_cloning() {
    let dynamic_code = AppCode::try_new(String::from("THIRD_PARTY_FAILURE")).expect("valid dynamic code");
    let expected_ptr = dynamic_code.as_str().as_ptr();
    let source = std::io::Error::from(std::io::ErrorKind::Other);
    let err = masterror::Context::new(AppErrorKind::Service).code(dynamic_code).into_error(vec![source.to_string()]);
    assert_eq!(err.code.as_str().as_ptr(), expected_ptr);
}
