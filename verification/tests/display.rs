use std::error::Error as StdError;

use masterror::{field, AppError, DisplayMode, DisplayModeState, Environment, FieldRedaction, MODE_CACHE_UNSET};
use sha2::{Digest, Sha256};
use std::time::Duration;
use std::io::{Error as IoError, ErrorKind};

/// The environment of a test process: no variables set.
fn test_environment() -> Environment {
    Environment { masterror_env: None, kubernetes_service_host: false, debug_build: true }
}

/// The messages of an error and of its causes, outermost first.
fn chain_of(err: &dyn StdError) -> Vec<String> {
    let mut out = vec![err.to_string()];
    let mut current = err.source();
    while let Some(next) = current {
        out.push(next.to_string());
        current = next.source();
    }
    out
}

/// Lowercase hex SHA-256 digest of a byte string.
fn sha256_hex(input: &[u8]) -> String {
    let mut hasher = Sha256::new();
    hasher.update(input);
    hasher.finalize().iter().fold(String::with_capacity(64), |mut acc, byte| {
        acc.push_str(&format!("{:02x}", byte));
        acc
    })
}

#[test]
fn display_display_mode_current_returns_valid_mode() {
    let mode = DisplayMode::current(&mut DisplayModeState::new(), &test_environment());
    assert!(matches!(
        mode,
        DisplayMode::Prod | DisplayMode::Local | DisplayMode::Staging
    ));
}

#[test]
fn display_display_mode_detect_auto_returns_local_in_debug() {
    assert_eq!(DisplayMode::detect_auto(true), DisplayMode::Local);
    assert_eq!(DisplayMode::detect_auto(false), DisplayMode::Prod);
}

#[test]
fn display_mode_override_takes_priority() {
    let mut state = DisplayModeState::new();
    state.set_override(Some(DisplayMode::Staging));
    assert_eq!(DisplayMode::current(&mut state, &test_environment()), DisplayMode::Staging);
}

#[test]
fn display_dispatches_prod_layout() {
    let mut state = DisplayModeState::new();
    state.set_override(Some(DisplayMode::Prod));
    let error = AppError::not_found("missing user");
    let mode = DisplayMode::current(&mut state, &test_environment());
    let output = error.render(mode);
    assert!(output.starts_with(r#"{"kind":"NotFound""#), "{output}");
    assert!(output.contains(r#""code":"NOT_FOUND""#));
    assert!(output.contains(r#""message":"missing user""#));
    assert!(!output.contains('\u{1b}'));
}

#[test]
fn display_dispatches_staging_layout() {
    let mut state = DisplayModeState::new();
    state.set_override(Some(DisplayMode::Staging));
    let error = AppError::network("upstream down").with_source_chain(chain_of(&IoError::other("timeout")));
    let mode = DisplayMode::current(&mut state, &test_environment());
    let output = error.render(mode);
    assert!(output.starts_with(r#"{"kind":"Network""#), "{output}");
    assert!(output.contains(r#""source_chain":["timeout"]"#));
    assert!(!output.contains('\u{1b}'));
}

#[test]
fn display_dispatches_local_layout() {
    let mut state = DisplayModeState::new();
    state.set_override(Some(DisplayMode::Local));
    let error = AppError::not_found("missing user");
    let mode = DisplayMode::current(&mut state, &test_environment());
    let output = error.render(mode);
    assert!(output.contains("Error:"));
    assert!(output.contains("Code: NOT_FOUND"));
    assert!(output.contains("missing user"));
}

#[test]
fn display_fmt_prod_outputs_json() {
    let error = AppError::not_found("User not found");
    let output = error.fmt_prod();
    assert!(output.contains(r#""kind":"NotFound""#));
    assert!(output.contains(r#""code":"NOT_FOUND""#));
    assert!(output.contains(r#""message":"User not found""#));
}

#[test]
fn display_fmt_prod_excludes_redacted_message() {
    let error = AppError::internal("secret").redactable();
    let output = error.fmt_prod();
    assert!(!output.contains("secret"));
}

#[test]
fn display_fmt_prod_includes_metadata() {
    let error = AppError::not_found("User not found").with_field(field::u64("user_id", 12345));
    let output = error.fmt_prod();
    assert!(output.contains(r#""metadata""#));
    assert!(output.contains(r#""user_id":12345"#));
}

#[test]
fn display_fmt_prod_excludes_sensitive_metadata() {
    let error = AppError::internal("Error").with_field(field::str("password", "secret"));
    let output = error.fmt_prod();
    assert!(!output.contains("secret"));
    assert!(output.contains(r#""password":"[REDACTED]""#));
}

#[test]
fn hash_redaction_renders_hex_digest_in_all_modes() {
    let expected = sha256_hex(b"super-secret");
    let error = AppError::internal("Error").with_field(
        field::str("fingerprint", "super-secret").with_redaction(FieldRedaction::Hash)
    );
    let prod = error.fmt_prod();
    let staging = error.fmt_staging();
    let local = error.fmt_local();
    for output in [&prod, &staging, &local] {
        assert!(output.contains(&expected), "{output}");
        assert!(!output.contains("super-secret"), "{output}");
    }
    assert!(prod.contains(&format!(r#""fingerprint":"{}""#, expected)));
    assert!(staging.contains(&format!(r#""fingerprint":"{}""#, expected)));
    assert!(local.contains(&format!("fingerprint: {}", expected)));
}

#[test]
fn last4_redaction_masks_value_in_all_modes() {
    let error = AppError::internal("Error").with_field(
        field::str("card_number", "4111111111111111").with_redaction(FieldRedaction::Last4)
    );
    let prod = error.fmt_prod();
    let staging = error.fmt_staging();
    let local = error.fmt_local();
    for output in [&prod, &staging, &local] {
        assert!(output.contains("************1111"), "{output}");
        assert!(!output.contains("4111111111111111"), "{output}");
    }
}

#[test]
fn last4_redaction_omits_unmaskable_field() {
    let error = AppError::internal("Error")
        .with_field(field::bool("consent", true).with_redaction(FieldRedaction::Last4));
    let prod = error.fmt_prod();
    let staging = error.fmt_staging();
    let local = error.fmt_local();
    assert!(!prod.contains("metadata"), "{prod}");
    assert!(!staging.contains("metadata"), "{staging}");
    assert!(!local.contains("Context:"), "{local}");
    for output in [&prod, &staging, &local] {
        assert!(!output.contains("consent"), "{output}");
    }
}

#[test]
fn redact_policy_uses_placeholder_in_local_layout() {
    let error = AppError::internal("Error").with_field(field::str("password", "hunter2"));
    let output = error.fmt_local();
    assert!(output.contains("password: [REDACTED]"), "{output}");
    assert!(!output.contains("hunter2"));
}

#[test]
fn fmt_local_hides_redacted_message() {
    let error = AppError::internal("sensitive data").redactable();
    let output = error.fmt_local();
    assert!(!output.contains("sensitive data"));
    assert!(!output.contains("Message:"));
}

#[test]
fn display_fmt_local_outputs_human_readable() {
    let error = AppError::not_found("User not found");
    let output = error.fmt_local();
    assert!(output.contains("Error:"));
    assert!(output.contains("Code: NOT_FOUND"));
    assert!(output.contains("Message: User not found"));
}

#[test]
fn display_fmt_local_includes_source_chain() {
    let io_err = IoError::other("connection failed");
    let error = AppError::internal("Database error").with_source_chain(chain_of(&io_err));
    let output = error.fmt_local();
    assert!(output.contains("Caused by"));
    assert!(output.contains("connection failed"));
}

#[test]
fn display_fmt_staging_outputs_json_with_context() {
    let error = AppError::service("Service unavailable");
    let output = error.fmt_staging();
    assert!(output.contains(r#""kind":"Service""#));
    assert!(output.contains(r#""code":"SERVICE""#));
}

#[test]
fn display_fmt_staging_includes_source_chain() {
    let io_err = IoError::other("timeout");
    let error = AppError::network("Network error").with_source_chain(chain_of(&io_err));
    let output = error.fmt_staging();
    assert!(output.contains(r#""source_chain""#));
    assert!(output.contains("timeout"));
}

#[test]
fn display_fmt_prod_escapes_special_chars() {
    let error = AppError::internal("Line\nwith\"quotes\"");
    let output = error.fmt_prod();
    assert!(output.contains(r#"\n"#));
    assert!(output.contains(r#"\""#));
}

#[test]
fn display_fmt_prod_formats_duration_metadata() {
    let error = AppError::internal("Error")
        .with_field(field::duration("elapsed", Duration::from_millis(1500)));
    let output = error.fmt_prod();
    assert!(output.contains(r#""secs":1"#));
    assert!(output.contains(r#""nanos":500000000"#));
}

#[test]
fn display_fmt_prod_formats_bool_metadata() {
    let error = AppError::internal("Error").with_field(field::bool("active", true));
    let output = error.fmt_prod();
    assert!(output.contains(r#""active":true"#));
}

#[test]
fn display_fmt_prod_without_message() {
    let error = AppError::bare(masterror::AppErrorKind::Internal);
    let output = error.fmt_prod();
    assert!(output.contains(r#""kind":"Internal""#));
    assert!(!output.contains(r#""message""#));
}

#[test]
fn display_fmt_local_without_message() {
    let error = AppError::bare(masterror::AppErrorKind::BadRequest);
    let output = error.fmt_local();
    assert!(output.contains("Error:"));
    assert!(!output.contains("Message:"));
}

#[test]
fn display_fmt_local_with_metadata() {
    let error = AppError::internal("Error")
        .with_field(field::str("region", "value"))
        .with_field(field::i64("count", -42));
    let output = error.fmt_local();
    assert!(output.contains("Context:"));
    assert!(output.contains("region: value"));
    assert!(output.contains("count: -42"));
}

#[test]
fn display_fmt_staging_without_message() {
    let error = AppError::bare(masterror::AppErrorKind::Timeout);
    let output = error.fmt_staging();
    assert!(output.contains(r#""kind":"Timeout""#));
    assert!(!output.contains(r#""message""#));
}

#[test]
fn display_fmt_staging_with_metadata() {
    let error = AppError::service("Service error").with_field(field::u64("retry_count", 3));
    let output = error.fmt_staging();
    assert!(output.contains(r#""metadata""#));
    assert!(output.contains(r#""retry_count":3"#));
}

#[test]
fn display_fmt_staging_with_redacted_message() {
    let error = AppError::internal("sensitive data").redactable();
    let output = error.fmt_staging();
    assert!(!output.contains("sensitive data"));
}

#[test]
fn display_fmt_prod_escapes_control_chars() {
    let error = AppError::internal("test\x00\x1F");
    let output = error.fmt_prod();
    assert!(output.contains(r#"\u0000"#));
    assert!(output.contains(r#"\u001f"#));
}

#[test]
fn display_fmt_prod_escapes_tab_and_carriage_return() {
    let error = AppError::internal("line\ttab\rreturn");
    let output = error.fmt_prod();
    assert!(output.contains(r#"\t"#));
    assert!(output.contains(r#"\r"#));
}

#[test]
fn display_display_mode_current_caches_result() {
    let mut state = DisplayModeState::new();
    state.set_override(Some(DisplayMode::Staging));
    state.reset();
    assert_eq!(state.cached, MODE_CACHE_UNSET);
    let first = DisplayMode::current(&mut state, &test_environment());
    assert_eq!(state.cached, first.as_u8());
    let second = DisplayMode::current(&mut state, &test_environment());
    assert_eq!(first, second);
}

#[test]
fn display_display_mode_detect_auto_returns_prod_in_release() {
    assert_eq!(DisplayMode::detect_auto(false), DisplayMode::Prod);
}

#[test]
fn display_fmt_prod_with_multiple_metadata_fields() {
    let error = AppError::not_found("test")
        .with_field(field::str("first", "value1"))
        .with_field(field::u64("second", 42))
        .with_field(field::bool("third", true));
    let output = error.fmt_prod();
    assert!(output.contains(r#""first":"value1""#));
    assert!(output.contains(r#""second":42"#));
    assert!(output.contains(r#""third":true"#));
}

#[test]
fn display_fmt_prod_escapes_backslash() {
    let error = AppError::internal("path\\to\\file");
    let output = error.fmt_prod();
    assert!(output.contains(r#"path\\to\\file"#));
}

#[test]
fn display_fmt_prod_with_i64_metadata() {
    let error = AppError::internal("test").with_field(field::i64("count", -100));
    let output = error.fmt_prod();
    assert!(output.contains(r#""count":-100"#));
}

#[test]
fn display_fmt_prod_with_string_metadata() {
    let error = AppError::internal("test").with_field(field::str("name", "value"));
    let output = error.fmt_prod();
    assert!(output.contains(r#""name":"value""#));
}

#[test]
fn display_fmt_local_with_deep_source_chain() {
    let io1 = IoError::new(ErrorKind::NotFound, "level 1");
    let io2 = IoError::other(io1);
    let error = AppError::internal("top").with_source_chain(chain_of(&io2));
    let output = error.fmt_local();
    assert!(output.contains("Caused by"));
    assert!(output.contains("level 1"));
}

#[test]
fn display_fmt_staging_with_multiple_metadata_fields() {
    let error = AppError::service("error")
        .with_field(field::str("key1", "value1"))
        .with_field(field::u64("key2", 123))
        .with_field(field::bool("key3", false));
    let output = error.fmt_staging();
    assert!(output.contains(r#""key1":"value1""#));
    assert!(output.contains(r#""key2":123"#));
    assert!(output.contains(r#""key3":false"#));
}

#[test]
fn display_fmt_staging_with_deep_source_chain() {
    let io1 = IoError::new(ErrorKind::NotFound, "inner error");
    let io2 = IoError::other(io1);
    let error = AppError::service("outer").with_source_chain(chain_of(&io2));
    let output = error.fmt_staging();
    assert!(output.contains(r#""source_chain""#));
    assert!(output.contains("inner error"));
}

#[test]
fn display_fmt_staging_with_redacted_and_public_metadata() {
    let error = AppError::internal("test")
        .with_field(field::str("public", "visible"))
        .with_field(field::str("password", "secret"));
    let output = error.fmt_staging();
    assert!(output.contains(r#""public":"visible""#));
    assert!(output.contains(r#""password":"[REDACTED]""#));
    assert!(!output.contains("secret"));
}

#[test]
fn display_fmt_prod_formats_uuid_metadata() {
    let uuid: u128 = 0x550e8400_e29b_41d4_a716_446655440000;
    let error = AppError::internal("Error").with_field(field::uuid("request_id", uuid));
    let output = error.fmt_prod();
    assert!(output.contains(r#""request_id":"550e8400-e29b-41d4-a716-446655440000""#));
}

#[test]
fn uuid_values_are_masked_and_hashed_as_text() {
    let uuid: u128 = 0x550e8400_e29b_41d4_a716_446655440000;
    let masked = AppError::internal("Error")
        .with_field(field::uuid("request_id", uuid).with_redaction(masterror::FieldRedaction::Last4));
    let expected = format!(r#""request_id":"{}0000""#, "*".repeat(32));
    assert!(masked.fmt_prod().contains(&expected));
    let hashed = AppError::internal("Error")
        .with_field(field::uuid("request_id", uuid).with_redaction(masterror::FieldRedaction::Hash));
    let text_hashed = AppError::internal("Error").with_field(
        field::str("request_id", "550e8400-e29b-41d4-a716-446655440000").with_redaction(masterror::FieldRedaction::Hash),
    );
    assert_eq!(hashed.fmt_prod(), text_hashed.fmt_prod());
    let local = AppError::internal("Error").with_field(field::uuid("request_id", uuid)).fmt_local();
    assert!(local.contains("  request_id: 550e8400-e29b-41d4-a716-446655440000\n"));
}
