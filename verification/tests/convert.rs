use masterror::convert::config::{config_error, ConfigFailure};
use masterror::convert::init_data::{init_data_error, InitDataFailure};
use masterror::convert::json::{json_error, JsonCategory, JsonFailure};
use masterror::convert::redis::{redis_error, retry_method_details, RedisFailure, RetryMethod};
use masterror::convert::sql::{migrate_error, sql_error, DatabaseErrorKind, DatabaseFailure, MigrateFailure, SqlFailure};
use masterror::convert::telegram_api::{telegram_api_error, TelegramRequestFailure};
use masterror::convert::telegram_webapp::{webapp_error, WebAppValidationFailure};
use masterror::convert::timeout::elapsed_error;
use masterror::convert::validation::{validation_error, ValidationFailure};
use masterror::{AppCode, AppError, AppErrorKind, Error, FieldRedaction, FieldValue};
use http::StatusCode;

/// The cause chain of a failure described by one message.
fn cause(message: &str) -> Vec<String> {
    vec![message.to_string()]
}

#[test]
fn io_error_maps_to_internal_and_preserves_message() {
    let src = std::io::Error::other("disk said nope");
    let app: AppError = src.into();

    // kind must be Internal
    assert!(matches!(app.kind, AppErrorKind::Internal));

    // message should be preserved for logs/public payload
    assert_eq!(app.message.as_deref(), Some("disk said nope"));
}

#[test]
fn string_maps_to_bad_request_and_preserves_text() {
    let app: AppError = String::from("name must not be empty").into();

    assert!(matches!(app.kind, AppErrorKind::BadRequest));
    assert_eq!(app.message.as_deref(), Some("name must not be empty"));
}

#[test]
fn maps_status_consistently() {
    let e = AppError::new(AppErrorKind::Validation, "bad");
    assert_eq!(e.status_code().as_u16(), 422);
}

#[test]
fn http_status_maps_from_kind() {
    let e = AppError::forbidden("nope");
    assert_eq!(e.http_status(), StatusCode::FORBIDDEN);

    let e = AppError::validation("bad");
    assert_eq!(e.http_status(), StatusCode::UNPROCESSABLE_ENTITY);
}

#[test]
fn maps_to_config_kind() {
    let app_err = config_error(&ConfigFailure::Message("dummy".into()), cause("dummy"));
    assert!(matches!(app_err.kind, AppErrorKind::Config));
    let metadata = app_err.metadata();
    assert_eq!(metadata.get("config.phase"), Some(&FieldValue::Str("message".into())));
}

#[test]
fn frozen_error_maps_correctly() {
    let app_err = config_error(&ConfigFailure::Frozen, cause("configuration is frozen"));
    assert!(matches!(app_err.kind, AppErrorKind::Config));
    assert_eq!(app_err.metadata().get("config.phase"), Some(&FieldValue::Str("frozen".into())));
}

#[test]
fn not_found_error_captures_key() {
    let app_err = config_error(&ConfigFailure::NotFound("database.url".into()), cause("not found"));
    assert!(matches!(app_err.kind, AppErrorKind::Config));
    let metadata = app_err.metadata();
    assert_eq!(metadata.get("config.phase"), Some(&FieldValue::Str("not_found".into())));
    assert_eq!(metadata.get("config.key"), Some(&FieldValue::Str("database.url".into())));
}

#[test]
fn path_parse_error_maps_correctly() {
    let app_err = config_error(&ConfigFailure::PathParse, cause("invalid path"));
    assert!(matches!(app_err.kind, AppErrorKind::Config));
    assert_eq!(app_err.metadata().get("config.phase"), Some(&FieldValue::Str("path_parse".into())));
}

#[test]
fn file_parse_error_without_uri() {
    let app_err = config_error(&ConfigFailure::FileParse { uri: None }, cause("disk"));
    assert!(matches!(app_err.kind, AppErrorKind::Config));
    assert_eq!(app_err.metadata().get("config.phase"), Some(&FieldValue::Str("file_parse".into())));
    assert!(app_err.metadata().get("config.uri").is_none());
}

#[test]
fn file_parse_error_with_uri() {
    let app_err = config_error(&ConfigFailure::FileParse { uri: Some("/etc/app/config.toml".into()) }, cause("disk"));
    assert!(matches!(app_err.kind, AppErrorKind::Config));
    let metadata = app_err.metadata();
    assert_eq!(metadata.get("config.phase"), Some(&FieldValue::Str("file_parse".into())));
    assert_eq!(metadata.get("config.uri"), Some(&FieldValue::Str("/etc/app/config.toml".into())));
}

#[test]
fn at_error_with_all_fields() {
    let err = ConfigFailure::At { origin: Some("env.toml".into()), key: Some("database.host".into()) };
    let app_err = config_error(&err, cause("invalid"));
    assert!(matches!(app_err.kind, AppErrorKind::Config));
    let metadata = app_err.metadata();
    assert_eq!(metadata.get("config.phase"), Some(&FieldValue::Str("at".into())));
    assert_eq!(metadata.get("config.origin"), Some(&FieldValue::Str("env.toml".into())));
    assert_eq!(metadata.get("config.key"), Some(&FieldValue::Str("database.host".into())));
}

#[test]
fn at_error_without_optional_fields() {
    let app_err = config_error(&ConfigFailure::At { origin: None, key: None }, cause("error"));
    assert!(matches!(app_err.kind, AppErrorKind::Config));
    let metadata = app_err.metadata();
    assert_eq!(metadata.get("config.phase"), Some(&FieldValue::Str("at".into())));
    assert!(metadata.get("config.origin").is_none());
    assert!(metadata.get("config.key").is_none());
}

#[test]
fn message_error_preserves_message() {
    let app_err = config_error(&ConfigFailure::Message("custom error message".into()), cause("custom error message"));
    assert!(matches!(app_err.kind, AppErrorKind::Config));
    let metadata = app_err.metadata();
    assert_eq!(metadata.get("config.phase"), Some(&FieldValue::Str("message".into())));
    assert_eq!(metadata.get("config.message"), Some(&FieldValue::Str("custom error message".into())));
}

#[test]
fn foreign_error_maps_correctly() {
    let app_err = config_error(&ConfigFailure::Foreign, cause("external"));
    assert!(matches!(app_err.kind, AppErrorKind::Config));
    assert_eq!(app_err.metadata().get("config.phase"), Some(&FieldValue::Str("foreign".into())));
}

#[test]
fn error_preserves_source() {
    let app_err = config_error(&ConfigFailure::Message("source test".into()), cause("source test"));
    assert!(app_err.has_source());
    assert_eq!(app_err.source_chain, vec!["source test".to_string()]);
}

#[test]
fn config_type_error_records_expectation() {
    let err = ConfigFailure::Type {
        origin: None,
        unexpected: "string \"x\"".into(),
        expected: "an integer",
        key: Some("port".into()),
    };
    let app_err = config_error(&err, cause("invalid type"));
    let metadata = app_err.metadata();
    assert_eq!(metadata.get("config.phase"), Some(&FieldValue::Str("type".into())));
    assert_eq!(metadata.get("config.expected"), Some(&FieldValue::Str("an integer".into())));
    assert_eq!(metadata.get("config.unexpected"), Some(&FieldValue::Str("string \"x\"".into())));
    assert_eq!(metadata.get("config.key"), Some(&FieldValue::Str("port".into())));
    assert!(metadata.get("config.origin").is_none());
}

#[test]
fn all_variants_map_to_telegram_auth() {
    let cases: Vec<InitDataFailure> = vec![
        InitDataFailure::AuthDateMissing,
        InitDataFailure::HashMissing,
        InitDataFailure::HashInvalid,
        InitDataFailure::UnexpectedFormat("bad format".into()),
        InitDataFailure::Expired,
        InitDataFailure::Internal("oops".into()),
        InitDataFailure::SignatureMissing,
        InitDataFailure::SignatureInvalid("bad sig".into()),
    ];
    for case in cases {
        let app: Error = init_data_error(&case, cause("init data"));
        assert!(matches!(app.kind, AppErrorKind::TelegramAuth));
        assert!(app.metadata().get("telegram_init_data.reason").is_some());
    }
}

#[test]
fn hash_missing_maps_correctly() {
    let err = init_data_error(&InitDataFailure::HashMissing, cause("hash missing"));
    assert!(matches!(err.kind, AppErrorKind::TelegramAuth));
    assert_eq!(err.metadata().get("telegram_init_data.reason"), Some(&FieldValue::Str("hash_missing".into())));
}

#[test]
fn expired_maps_correctly() {
    let err = init_data_error(&InitDataFailure::Expired, cause("expired"));
    assert!(matches!(err.kind, AppErrorKind::TelegramAuth));
    assert_eq!(err.metadata().get("telegram_init_data.reason"), Some(&FieldValue::Str("expired".into())));
}

#[test]
fn unexpected_format_preserves_details() {
    let err = init_data_error(&InitDataFailure::UnexpectedFormat("missing field".into()), cause("format"));
    assert!(matches!(err.kind, AppErrorKind::TelegramAuth));
    assert_eq!(err.metadata().get("telegram_init_data.reason"), Some(&FieldValue::Str("unexpected_format".into())));
    assert_eq!(err.metadata().get("telegram_init_data.details"), Some(&FieldValue::Str("missing field".into())));
}

#[test]
fn signature_invalid_preserves_details() {
    let err = init_data_error(&InitDataFailure::SignatureInvalid("mismatch".into()), cause("signature"));
    assert!(matches!(err.kind, AppErrorKind::TelegramAuth));
    assert_eq!(err.metadata().get("telegram_init_data.reason"), Some(&FieldValue::Str("signature_invalid".into())));
    assert_eq!(err.metadata().get("telegram_init_data.details"), Some(&FieldValue::Str("mismatch".into())));
}

/// A server failure with the given SQLSTATE and class.
fn db_failure(message: &str, code: Option<&str>, constraint: Option<&str>, table: Option<&str>, kind: DatabaseErrorKind) -> SqlFailure {
    SqlFailure::Database(DatabaseFailure {
        message: message.into(),
        code: code.map(String::from),
        constraint: constraint.map(String::from),
        table: table.map(String::from),
        kind,
    })
}

#[test]
fn row_not_found_maps_to_not_found() {
    let err = sql_error(&SqlFailure::RowNotFound, cause("no rows returned"));
    assert!(matches!(err.kind, AppErrorKind::NotFound));
}

#[test]
fn io_error_maps_to_dependency_unavailable() {
    let err = sql_error(&SqlFailure::Io("Other".into()), cause("boom"));
    assert!(matches!(err.kind, AppErrorKind::DependencyUnavailable));
    let metadata = err.metadata();
    assert_eq!(metadata.get("db.reason"), Some(&FieldValue::Str("io_error".into())));
}

#[test]
fn unique_violation_sets_code_override() {
    let failure = db_failure("duplicate key", Some("23505"), Some("users_email_key"), Some("users"), DatabaseErrorKind::UniqueViolation);
    let err = sql_error(&failure, cause("duplicate key"));
    assert_eq!(err.kind, AppErrorKind::Conflict);
    assert_eq!(err.code, AppCode::UserAlreadyExists);
    let metadata = err.metadata();
    assert_eq!(metadata.get("db.constraint"), Some(&FieldValue::Str("users_email_key".into())));
}

#[test]
fn serialization_failure_carries_retry_hint() {
    let failure = db_failure("serialization failure", Some("40001"), None, None, DatabaseErrorKind::Other);
    let err = sql_error(&failure, cause("serialization failure"));
    assert_eq!(err.retry.map(|r| r.after_seconds), Some(1));
    assert_eq!(err.metadata().get("db.retry_after_hint_secs"), Some(&FieldValue::U64(1)));
}

#[test]
fn not_null_violation_is_validation_with_override() {
    let failure = db_failure("null value", Some("23502"), None, Some("users"), DatabaseErrorKind::NotNullViolation);
    let err = sql_error(&failure, cause("null value"));
    assert_eq!(err.kind, AppErrorKind::Validation);
    assert_eq!(err.code, AppCode::Validation);
    assert!(err.retry.is_none());
    assert_eq!(err.metadata().get("db.table"), Some(&FieldValue::Str("users".into())));
    assert_eq!(err.metadata().get("db.code"), Some(&FieldValue::Str("23502".into())));
}

#[test]
fn pool_timeout_is_retryable_timeout() {
    let err = sql_error(&SqlFailure::PoolTimedOut, cause("pool timed out"));
    assert_eq!(err.kind, AppErrorKind::Timeout);
    assert_eq!(err.code, AppCode::Timeout);
    assert_eq!(err.retry.map(|r| r.after_seconds), Some(1));
    assert_eq!(err.metadata().get("db.retry_after_hint_secs"), Some(&FieldValue::U64(1)));
}

#[test]
fn column_index_out_of_bounds_records_positions() {
    let err = sql_error(&SqlFailure::ColumnIndexOutOfBounds { index: 7, len: 3 }, cause("out of bounds"));
    assert_eq!(err.kind, AppErrorKind::Internal);
    assert_eq!(err.metadata().get("db.index"), Some(&FieldValue::U64(7)));
    assert_eq!(err.metadata().get("db.len"), Some(&FieldValue::U64(3)));
}

#[test]
fn migration_version_too_old_records_versions() {
    let err = migrate_error(&MigrateFailure::VersionTooOld(3, 5), cause("too old"));
    assert_eq!(err.kind, AppErrorKind::Database);
    assert_eq!(err.metadata().get("migration.phase"), Some(&FieldValue::Str("version_too_old".into())));
    assert_eq!(err.metadata().get("migration.version"), Some(&FieldValue::I64(3)));
    assert_eq!(err.metadata().get("migration.latest"), Some(&FieldValue::I64(5)));
}

#[test]
fn migration_mix_is_reported_as_invalid_mix() {
    let err = migrate_error(&MigrateFailure::InvalidMixReversibleAndSimple, cause("mixed"));
    assert_eq!(err.metadata().get("migration.phase"), Some(&FieldValue::Str("invalid_mix".into())));
    assert_eq!(err.metadata().len(), 1);
}

#[test]
fn api_maps_to_external_api() {
    let failure = TelegramRequestFailure::Api {
        description: "Forbidden: bot was blocked by the user".into(),
        variant: "BotBlocked".into(),
        invalid_token: false,
    };
    let app_err = telegram_api_error(&failure, cause("blocked"));
    assert!(matches!(app_err.kind, AppErrorKind::ExternalApi));
    assert_eq!(
        app_err.metadata().get("telegram.api_error"),
        Some(&FieldValue::Str("Forbidden: bot was blocked by the user".into()))
    );
}

#[test]
fn retry_after_maps_to_rate_limited() {
    let app_err = telegram_api_error(&TelegramRequestFailure::RetryAfter(5), cause("retry after"));
    assert!(matches!(app_err.kind, AppErrorKind::RateLimited));
    assert_eq!(app_err.retry.map(|r| r.after_seconds), Some(5));
}

#[test]
fn io_maps_to_internal() {
    let app_err = telegram_api_error(&TelegramRequestFailure::Io("Other".into()), cause("disk"));
    assert!(matches!(app_err.kind, AppErrorKind::Internal));
    assert_eq!(app_err.metadata().get("telegram.reason"), Some(&FieldValue::Str("io".into())));
}

#[test]
fn invalid_token_maps_to_unauthorized() {
    let failure = TelegramRequestFailure::Api {
        description: "Invalid bot token".into(),
        variant: "InvalidToken".into(),
        invalid_token: true,
    };
    let app_err = telegram_api_error(&failure, cause("invalid token"));
    assert_eq!(app_err.kind, AppErrorKind::Unauthorized);
    assert_eq!(app_err.code, AppCode::Unauthorized);
    let metadata = app_err.metadata();
    assert_eq!(metadata.get("telegram.api_error_variant"), Some(&FieldValue::Str("InvalidToken".into())));
}

#[test]
fn network_detail_is_hashed() {
    let failure = TelegramRequestFailure::Network("error sending request for url".into());
    let app_err = telegram_api_error(&failure, cause("network"));
    let metadata = app_err.metadata();
    assert_eq!(metadata.redaction("telegram.detail"), Some(FieldRedaction::Hash));
}

#[test]
fn all_variants_map_to_telegram_auth_and_preserve_message() {
    let cases = vec![
        WebAppValidationFailure::MissingField("hash".into()),
        WebAppValidationFailure::InvalidEncoding,
        WebAppValidationFailure::InvalidSignatureEncoding,
        WebAppValidationFailure::SignatureMismatch,
        WebAppValidationFailure::InvalidPublicKey,
    ];
    for case in cases {
        let app = webapp_error(&case, cause("web app data"));
        assert!(matches!(app.kind, AppErrorKind::TelegramAuth));
        assert!(app.metadata().get("telegram_webapp.reason").is_some());
    }
}

#[test]
fn validation_error_maps_to_telegram_auth() {
    let err = webapp_error(&WebAppValidationFailure::SignatureMismatch, cause("mismatch"));
    assert!(matches!(err.kind, AppErrorKind::TelegramAuth));
    assert_eq!(err.metadata().get("telegram_webapp.reason"), Some(&FieldValue::Str("signature_mismatch".into())));
}

#[test]
fn validation_errors_map_to_validation_kind() {
    let failure = ValidationFailure { field_errors: vec![("val".into(), vec!["range".into()])], has_nested: false };
    let err = validation_error(&failure, cause("val: range"));
    assert!(matches!(err.kind, AppErrorKind::Validation));
    let metadata = err.metadata();
    assert_eq!(metadata.get("validation.field_count"), Some(&FieldValue::U64(1)));
}

#[test]
fn validation_summary_keeps_first_three_names_and_distinct_codes() {
    let failure = ValidationFailure {
        field_errors: vec![
            ("email".into(), vec!["email".into(), "length".into()]),
            ("name".into(), vec!["length".into()]),
            ("age".into(), vec!["range".into(), "custom".into()]),
            ("zip".into(), vec!["regex".into()]),
        ],
        has_nested: true,
    };
    let err = validation_error(&failure, cause("invalid"));
    let metadata = err.metadata();
    assert_eq!(metadata.get("validation.field_count"), Some(&FieldValue::U64(4)));
    assert_eq!(metadata.get("validation.error_count"), Some(&FieldValue::U64(6)));
    assert_eq!(metadata.get("validation.fields"), Some(&FieldValue::Str("email,name,age".into())));
    assert_eq!(metadata.get("validation.codes"), Some(&FieldValue::Str("email,length,range".into())));
    assert_eq!(metadata.get("validation.has_nested"), Some(&FieldValue::Bool(true)));
}

#[test]
fn io_maps_to_serialization() {
    let failure = JsonFailure { category: JsonCategory::Io, line: 0, column: 0 };
    let app = json_error(&failure, cause("fail"));
    assert!(matches!(app.kind, AppErrorKind::Serialization));
    assert_eq!(app.metadata().get("serde_json.category"), Some(&FieldValue::Str("Io".into())));
    assert!(app.metadata().get("serde_json.line").is_none());
}

#[test]
fn syntax_maps_to_deserialization() {
    let failure = JsonFailure { category: JsonCategory::Syntax, line: 1, column: 2 };
    let app = json_error(&failure, cause("expected ident at line 1 column 2"));
    assert!(matches!(app.kind, AppErrorKind::Deserialization));
    let metadata = app.metadata();
    assert_eq!(metadata.get("serde_json.category"), Some(&FieldValue::Str("Syntax".into())));
    assert_eq!(metadata.get("serde_json.line"), Some(&FieldValue::U64(1)));
    assert_eq!(metadata.get("serde_json.column"), Some(&FieldValue::U64(2)));
}

/// A Redis failure of the given kind name and flags.
fn redis_failure(kind: &str, is_io_error: bool) -> RedisFailure {
    RedisFailure {
        kind: kind.into(),
        category: "I/O error".into(),
        is_timeout: false,
        is_cluster_error: false,
        is_connection_refusal: false,
        is_connection_dropped: false,
        is_io_error,
        is_busy_loading: false,
        code: None,
        redirect: None,
        retry_method: RetryMethod::Reconnect,
    }
}

#[test]
fn maps_io_error_to_dependency_unavailable() {
    let app_err = redis_error(&redis_failure("Io", true), cause("boom"));
    assert!(matches!(app_err.kind, AppErrorKind::DependencyUnavailable));
    let metadata = app_err.metadata();
    assert_eq!(metadata.get("redis.kind"), Some(&FieldValue::Str("Io".into())));
    assert_eq!(app_err.retry.map(|r| r.after_seconds), Some(1));
}

#[test]
fn maps_client_error_to_cache() {
    let mut failure = redis_failure("Client", false);
    failure.retry_method = RetryMethod::NoRetry;
    let app_err = redis_error(&failure, cause("bad config"));
    assert!(matches!(app_err.kind, AppErrorKind::Cache));
    assert!(app_err.retry.is_none());
    assert_eq!(app_err.metadata().get("redis.retry_method"), Some(&FieldValue::Str("NoRetry".into())));
}

#[test]
fn retry_method_details_table() {
    assert_eq!(retry_method_details(RetryMethod::NoRetry), ("NoRetry", None));
    assert_eq!(retry_method_details(RetryMethod::MovedRedirect), ("MovedRedirect", Some(0)));
    assert_eq!(retry_method_details(RetryMethod::WaitAndRetry), ("WaitAndRetry", Some(2)));
    assert_eq!(retry_method_details(RetryMethod::Other), ("Other", None));
}

#[test]
fn elapsed_deadline_is_timeout() {
    let err = elapsed_error(cause("deadline has elapsed"));
    assert_eq!(err.kind, AppErrorKind::Timeout);
    assert_eq!(err.metadata().get("timeout.source"), Some(&FieldValue::Str("tokio::time::timeout".into())));
}
