use masterror::backtrace::{backtrace_enabled_by_value, should_capture_backtrace, BacktraceState};
use masterror::display::render_diagnostics;
use masterror::format::{duration_parts_to_string, mask_last4};
use masterror::style::{backtrace_link, terminal_backtrace_link};
use masterror::{
    field, AppCode, AppError, AppErrorKind, Context, DiagnosticVisibility, DisplayMode, DisplayModeState, Environment,
    FieldRedaction, FieldValue, Metadata,
};

/// An environment naming a deployment through `MASTERROR_ENV`.
fn env_named(value: Option<&str>, kubernetes: bool) -> Environment {
    Environment { masterror_env: value.map(String::from), kubernetes_service_host: kubernetes, debug_build: true }
}

#[test]
fn builtin_codes_parse_back_to_themselves() {
    for code in [AppCode::NotFound, AppCode::UserAlreadyExists, AppCode::DependencyUnavailable, AppCode::Cache] {
        assert_eq!(AppCode::from_str(code.as_str()), Ok(code.clone()));
        assert!(AppCode::from_str(code.as_str()).unwrap().is_static());
    }
    let dynamic = AppCode::from_str("THIRD_PARTY_FAILURE").unwrap();
    assert!(!dynamic.is_static());
}

#[test]
fn environment_selects_the_mode() {
    assert_eq!(DisplayMode::detect(&env_named(Some("production"), false)), DisplayMode::Prod);
    assert_eq!(DisplayMode::detect(&env_named(Some("dev"), true)), DisplayMode::Local);
    assert_eq!(DisplayMode::detect(&env_named(Some("stage"), false)), DisplayMode::Staging);
    assert_eq!(DisplayMode::detect(&env_named(Some("qa"), true)), DisplayMode::Local);
    assert_eq!(DisplayMode::detect(&env_named(None, true)), DisplayMode::Prod);
    assert_eq!(DisplayMode::detect(&env_named(None, false)), DisplayMode::Local);
}

#[test]
fn current_mode_is_cached_until_reset() {
    let mut state = DisplayModeState::new();
    let first = DisplayMode::current(&mut state, &env_named(Some("staging"), false));
    assert_eq!(first, DisplayMode::Staging);
    assert_eq!(DisplayMode::current(&mut state, &env_named(Some("prod"), false)), DisplayMode::Staging);
    state.reset();
    assert_eq!(DisplayMode::current(&mut state, &env_named(Some("prod"), false)), DisplayMode::Prod);
}

#[test]
fn forced_mode_wins_over_cache_and_environment() {
    let mut state = DisplayModeState::new();
    let _ = DisplayMode::current(&mut state, &env_named(Some("prod"), false));
    state.set_override(Some(DisplayMode::Local));
    assert_eq!(DisplayMode::current(&mut state, &env_named(Some("prod"), false)), DisplayMode::Local);
}

#[test]
fn cached_mode_numbers_roundtrip() {
    for mode in [DisplayMode::Prod, DisplayMode::Local, DisplayMode::Staging] {
        assert_eq!(DisplayMode::from_discriminant(mode.as_u8()), mode);
    }
    assert_eq!(DisplayMode::from_discriminant(7), DisplayMode::Local);
}

#[test]
fn redacted_message_never_rendered() {
    let err = AppError::internal("top secret").redactable();
    let bare = AppError::bare(AppErrorKind::Internal).redactable();
    for mode in [DisplayMode::Prod, DisplayMode::Local, DisplayMode::Staging] {
        assert_eq!(err.render(mode), bare.render(mode));
        assert!(!err.render(mode).contains("top secret"));
    }
}

#[test]
fn redacted_values_do_not_change_output() {
    let a = AppError::internal("x").with_field(field::str("password", "hunter2"));
    let b = AppError::internal("x").with_field(field::str("password", "correct horse"));
    assert_eq!(a.fmt_prod(), b.fmt_prod());
    assert_eq!(a.fmt_local(), b.fmt_local());
    assert_eq!(a.fmt_prod(), r#"{"kind":"Internal","code":"INTERNAL","message":"x","metadata":{"password":"[REDACTED]"}}"#);
}

#[test]
fn exact_layouts() {
    let err = AppError::not_found("missing \"user\"")
        .with_field(field::u64("user_id", 7))
        .with_field(field::duration_parts("elapsed", 1, 500_000_000))
        .with_source_chain(vec!["db: no rows".to_string(), "io".to_string()]);
    assert_eq!(
        err.fmt_prod(),
        r#"{"kind":"NotFound","code":"NOT_FOUND","message":"missing \"user\"","metadata":{"elapsed":{"secs":1,"nanos":500000000},"user_id":7}}"#
    );
    assert_eq!(
        err.fmt_staging(),
        r#"{"kind":"NotFound","code":"NOT_FOUND","message":"missing \"user\"","source_chain":["db: no rows","io"],"metadata":{"elapsed":{"secs":1,"nanos":500000000},"user_id":7}}"#
    );
    assert_eq!(
        err.fmt_local(),
        "Error: Not found\nCode: NOT_FOUND\nMessage: missing \"user\"\n\n  Caused by: db: no rows\n  Caused by: io\n\nContext:\n  elapsed: 1.5s\n  user_id: 7\n"
    );
}

#[test]
fn cause_chains_are_cut() {
    let chain: Vec<String> = (0..12).map(|i| format!("c{i}")).collect();
    let err = AppError::bare(AppErrorKind::Internal).with_source_chain(chain);
    let staging = err.fmt_staging();
    assert!(staging.contains(r#""source_chain":["c0","c1","c2","c3","c4"]"#));
    let local = err.fmt_local();
    assert!(local.contains("Caused by: c9\n"));
    assert!(!local.contains("c10"));
}

#[test]
fn json_escaping_hides_control_characters() {
    let err = AppError::internal("a\u{1}b\u{7f}c\u{9f}d\\e");
    assert!(err.fmt_prod().contains(r#""message":"a\u0001b\u007fc\u009fd\\e""#));
}

#[test]
fn hashed_and_masked_values() {
    let err = AppError::internal("x")
        .with_field(field::str("card_number", "4111111111111111"))
        .with_field(field::str("pin", "12").with_redaction(FieldRedaction::Last4))
        .with_field(field::u64("code", 123456).with_redaction(FieldRedaction::Hash));
    let prod = err.fmt_prod();
    assert!(prod.contains(r#""card_number":"************1111""#));
    assert!(prod.contains(r#""pin":"*2""#));
    assert!(prod.contains(r#""code":"8d969eef6ecad3c29a3a629280e686cf0c3f5d5a86aff3ca12020c923adc6c92""#));
}

#[test]
fn masking_keeps_length() {
    assert_eq!(mask_last4("4111111111111111"), "************1111");
    assert_eq!(mask_last4("abcd"), "***d");
    assert_eq!(mask_last4("x"), "x");
    assert_eq!(mask_last4(""), "");
    assert_eq!(mask_last4("ßøñé12"), "**ñé12");
}

#[test]
fn durations_are_trimmed() {
    assert_eq!(duration_parts_to_string(0, 1_500_000), "0.0015s");
    assert_eq!(duration_parts_to_string(2, 0), "2s");
    assert_eq!(duration_parts_to_string(1, 10), "1.00000001s");
}

#[test]
fn backtrace_environment_values() {
    assert!(!backtrace_enabled_by_value(None));
    assert!(!backtrace_enabled_by_value(Some("")));
    assert!(!backtrace_enabled_by_value(Some("  0 ")));
    assert!(!backtrace_enabled_by_value(Some("OFF")));
    assert!(!backtrace_enabled_by_value(Some("\tFalse\n")));
    assert!(backtrace_enabled_by_value(Some("1")));
    assert!(backtrace_enabled_by_value(Some(" full ")));
}

#[test]
fn backtrace_decision_is_cached() {
    let mut state = BacktraceState::new();
    assert!(should_capture_backtrace(&mut state, Some("1")));
    assert!(should_capture_backtrace(&mut state, Some("0")));
}

#[test]
fn context_policies_apply_before_and_after() {
    let err = Context::new(AppErrorKind::Service)
        .with(field::str("token", "a"))
        .redact_field("token", FieldRedaction::Hash)
        .redact_field("session", FieldRedaction::Last4)
        .with(field::str("session", "abcdef"))
        .into_error(vec![]);
    assert_eq!(err.metadata().redaction("token"), Some(FieldRedaction::Hash));
    assert_eq!(err.metadata().redaction("session"), Some(FieldRedaction::Last4));
    assert!(!err.has_source());
}

#[test]
fn caller_location_fields() {
    let err = Context::new(AppErrorKind::Internal).with_caller_location("src/lib.rs", 10, 4).into_error(vec![]);
    assert_eq!(err.metadata().get("caller.file"), Some(&FieldValue::Str("src/lib.rs".into())));
    assert_eq!(err.metadata().get("caller.line"), Some(&FieldValue::U64(10)));
    assert_eq!(err.metadata().get("caller.column"), Some(&FieldValue::U64(4)));
}

#[test]
fn metadata_read_after_write() {
    let mut meta = Metadata::new();
    assert_eq!(meta.insert(field::str("b", "1")), None);
    assert_eq!(meta.insert(field::str("a", "2")), None);
    assert_eq!(meta.insert(field::str("b", "3")), Some(FieldValue::Str("1".into())));
    assert_eq!(meta.get("b"), Some(&FieldValue::Str("3".into())));
    let names: Vec<&str> = meta.iter().map(|(name, _)| name).collect();
    assert_eq!(names, vec!["a", "b"]);
}

#[test]
fn diagnostics_block() {
    let err = AppError::internal("x")
        .with_hint("check the pool")
        .with_suggestion_cmd("restart", "systemctl restart db")
        .with_docs_titled("https://docs.example.com", "Guide")
        .with_related_code("DB_DOWN")
        .with_related_code("DB_SLOW");
    assert_eq!(
        err.fmt_diagnostics(),
        "\n  hint: check the pool\n\n  suggestion: restart\n              systemctl restart db\n\n  docs: Guide (https://docs.example.com)\n\n  see also: DB_DOWN, DB_SLOW\n"
    );
    let d = err.diagnostics().unwrap();
    assert_eq!(render_diagnostics(d, DiagnosticVisibility::Public), "\n  docs: Guide (https://docs.example.com)\n\n  see also: DB_DOWN, DB_SLOW\n");
    assert_eq!(AppError::internal("y").fmt_diagnostics(), "");
}

#[test]
fn backtrace_links() {
    assert_eq!(backtrace_link("src/main.rs:16", "/home/u/src/main.rs", Some(16)), "src/main.rs:16");
    assert_eq!(
        terminal_backtrace_link("src/main.rs:16", "/p/main.rs", Some(16)),
        "\u{1b}]8;;editor://open?path=/p/main.rs&line=16\u{7}src/main.rs:16\u{1b}]8;;\u{7}"
    );
}

#[test]
fn critical_kinds_are_server_errors() {
    assert!(AppErrorKind::Internal.is_critical());
    assert!(!AppErrorKind::NotFound.is_critical());
    assert_eq!(AppErrorKind::RateLimited.debug_name(), "RateLimited");
    assert_eq!(AppErrorKind::Timeout.status_code().as_u16(), 504);
}

#[test]
fn production_output_hides_causes() {
    let plain = AppError::database_with_message("query failed").with_field(field::str("table", "users"));
    let caused = AppError::database_with_message("query failed")
        .with_field(field::str("table", "users"))
        .with_source_chain(vec!["connection reset by peer".to_string()]);
    assert_eq!(caused.render(DisplayMode::Prod), plain.render(DisplayMode::Prod));
    assert!(!caused.render(DisplayMode::Prod).contains("connection reset"));
    assert!(caused.render(DisplayMode::Staging).contains("connection reset"));
}

#[test]
fn every_kind_maps_to_an_error_status() {
    let kinds = [
        AppErrorKind::NotFound,
        AppErrorKind::Validation,
        AppErrorKind::Conflict,
        AppErrorKind::Unauthorized,
        AppErrorKind::Forbidden,
        AppErrorKind::NotImplemented,
        AppErrorKind::Internal,
        AppErrorKind::BadRequest,
        AppErrorKind::TelegramAuth,
        AppErrorKind::InvalidJwt,
        AppErrorKind::Database,
        AppErrorKind::Service,
        AppErrorKind::Config,
        AppErrorKind::Turnkey,
        AppErrorKind::Timeout,
        AppErrorKind::Network,
        AppErrorKind::RateLimited,
        AppErrorKind::DependencyUnavailable,
        AppErrorKind::Serialization,
        AppErrorKind::Deserialization,
        AppErrorKind::ExternalApi,
        AppErrorKind::Queue,
        AppErrorKind::Cache,
    ];
    for kind in kinds {
        let status = kind.http_status();
        assert!((400..=599).contains(&status));
        assert_eq!(kind.is_critical(), status >= 500);
        assert_eq!(kind.status_code().as_u16(), status);
    }
}

#[test]
fn metadata_does_not_depend_on_insertion_order() {
    let a = Metadata::from_fields(vec![field::uuid("trace_id", 7), field::bool("cached", true), field::u64("attempt", 2)]);
    let b = Metadata::from_fields(vec![field::u64("attempt", 2), field::uuid("trace_id", 7), field::bool("cached", true)]);
    let c = Metadata::from_fields(vec![
        field::u64("attempt", 1),
        field::bool("cached", true),
        field::uuid("trace_id", 7),
        field::u64("attempt", 2),
    ]);
    assert_eq!(a, b);
    assert_eq!(a, c);
    let names: Vec<&str> = a.iter().map(|(name, _)| name).collect();
    assert_eq!(names, vec!["attempt", "cached", "trace_id"]);
}

#[test]
fn parsed_codes_are_exactly_the_valid_ones() {
    assert_eq!(AppCode::from_str("NOT_FOUND"), Ok(AppCode::NotFound));
    assert!(AppCode::from_str("NOT-A-REAL-CODE").is_err());
    assert!(AppCode::from_str("_LEADING").is_err());
    assert!(AppCode::from_str("DOUBLE__UNDERSCORE").is_err());
    let custom = AppCode::from_str("THIRD_PARTY_FAILURE").unwrap();
    assert_eq!(custom.as_str(), "THIRD_PARTY_FAILURE");
}

/// Decodes a JSON string body (the escapes JSON defines).
fn json_decode_body(t: &str) -> String {
    let cs: Vec<char> = t.chars().collect();
    let mut out = String::new();
    let mut i = 0;
    while i < cs.len() {
        if cs[i] == '\\' && i + 1 < cs.len() {
            match cs[i + 1] {
                'u' => {
                    let hex: String = cs[i + 2..i + 6].iter().collect();
                    out.push(char::from_u32(u32::from_str_radix(&hex, 16).unwrap()).unwrap());
                    i += 6;
                    continue;
                }
                'n' => out.push('\n'),
                'r' => out.push('\r'),
                't' => out.push('\t'),
                '"' => out.push('"'),
                '\\' => out.push('\\'),
                other => out.push(other),
            }
            i += 2;
        } else {
            out.push(cs[i]);
            i += 1;
        }
    }
    out
}

#[test]
fn json_escaping_decodes_back() {
    let text = "quote \" slash \\ nl \n tab \t nul \u{0} unit \u{1f} del \u{7f} c1 \u{9f} é";
    let mut escaped = String::new();
    masterror::display::push_json_escaped(&mut escaped, text);
    assert!(escaped.contains("\\u0000") && escaped.contains("\\u001f") && escaped.contains("\\u007f"));
    assert_eq!(json_decode_body(&escaped), text);
}
