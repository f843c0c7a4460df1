//! Errors from SQL database access and schema migrations.

use std::borrow::Cow;

use vstd::prelude::*;

use crate::code::{code_of_kind, AppCode};
use crate::context::{
    built_context, built_error, built_error_with_retry, ctx_category, ctx_code, ctx_with, error_with_retry, text_field,
    value_field, Context, ContextView,
};
use crate::convert::config::with_optional_text;
use crate::error::Error;
use crate::field;
use crate::kind::AppErrorKind;
use crate::metadata::FieldValue;
use crate::text::str_eq;

verus! {

/// Class of a failure reported by the database server.
#[derive(Debug, Clone, Copy, PartialEq, Eq, Structural)]
pub enum DatabaseErrorKind {
    /// A unique constraint was violated.
    UniqueViolation,
    /// A foreign key constraint was violated.
    ForeignKeyViolation,
    /// A not-null constraint was violated.
    NotNullViolation,
    /// A check constraint was violated.
    CheckViolation,
    /// Any other failure.
    Other,
}

/// A failure reported by the database server.
#[derive(Debug, Clone, PartialEq, Eq)]
pub struct DatabaseFailure {
    /// The server's message.
    pub message: String,
    /// SQLSTATE code, when known.
    pub code: Option<String>,
    /// Violated constraint, when known.
    pub constraint: Option<String>,
    /// Table involved, when known.
    pub table: Option<String>,
    /// Class of the failure.
    pub kind: DatabaseErrorKind,
}

/// Why a database operation failed.
#[derive(Debug, Clone, PartialEq, Eq)]
pub enum SqlFailure {
    /// A query expected a row and found none.
    RowNotFound,
    /// The server reported a failure.
    Database(DatabaseFailure),
    /// I/O failed; the I/O error kind's name.
    Io(String),
    /// No connection became available in time.
    PoolTimedOut,
    /// The pool was closed.
    PoolClosed,
    /// A background worker crashed.
    WorkerCrashed,
    /// The connection settings are invalid.
    Configuration(String),
    /// An argument is invalid.
    InvalidArgument(String),
    /// A column could not be decoded.
    ColumnDecode {
        /// The column.
        index: String,
    },
    /// A column does not exist.
    ColumnNotFound(String),
    /// A column index is out of range.
    ColumnIndexOutOfBounds {
        /// The index used.
        index: u64,
        /// The number of columns.
        len: u64,
    },
    /// A type does not exist.
    TypeNotFound {
        /// The type name.
        name: String,
    },
    /// A value could not be encoded.
    Encode,
    /// A value could not be decoded.
    Decode,
    /// The wire protocol was violated.
    Protocol(String),
    /// TLS failed.
    Tls,
    /// A driver-specific failure.
    AnyDriverError,
    /// A savepoint statement is invalid.
    InvalidSavePointStatement,
    /// A transaction could not begin.
    BeginFailed,
    /// Any other failure, by its description.
    Other(String),
}

/// The public code a SQLSTATE overrides the default one with.
pub open spec fn sqlstate_code(state: Seq<char>) -> Option<AppCode> {
    if state == "23505"@ {
        Some(AppCode::UserAlreadyExists)
    } else if state == "23503"@ {
        Some(AppCode::Conflict)
    } else if state == "23502"@ || state == "23514"@ {
        Some(AppCode::Validation)
    } else {
        None
    }
}

/// The retry delay a SQLSTATE suggests.
pub open spec fn sqlstate_retry(state: Seq<char>) -> Option<u64> {
    if state == "40001"@ || state == "55P03"@ { Some(1) } else { None }
}

/// The kind of a server failure: constraint violations are conflicts or
/// validation failures, anything else a database error.
pub open spec fn database_kind(kind: DatabaseErrorKind) -> AppErrorKind {
    match kind {
        DatabaseErrorKind::UniqueViolation => AppErrorKind::Conflict,
        DatabaseErrorKind::ForeignKeyViolation => AppErrorKind::Conflict,
        DatabaseErrorKind::NotNullViolation => AppErrorKind::Validation,
        DatabaseErrorKind::CheckViolation => AppErrorKind::Validation,
        DatabaseErrorKind::Other => AppErrorKind::Database,
    }
}

/// The context of a server failure before classification.
pub open spec fn database_recorded(e: DatabaseFailure) -> ContextView {
    let base = built_context(AppErrorKind::Database, seq![
        text_field("db.reason", Cow::Borrowed("database_error")),
        text_field("db.message", Cow::Owned(e.message)),
    ]);
    with_optional_text(with_optional_text(with_optional_text(base, "db.constraint", e.constraint), "db.table", e.table), "db.code", e.code)
}

/// The context of a server failure and the retry delay its SQLSTATE
/// suggests.
pub open spec fn database_context(e: DatabaseFailure) -> (ContextView, Option<u64>) {
    let classified = ctx_category(database_recorded(e), database_kind(e.kind));
    match e.code {
        Some(state) => (match sqlstate_code(state@) {
            Some(code) => ctx_code(classified, code),
            None => classified,
        }, sqlstate_retry(state@)),
        None => (classified, None),
    }
}

/// The public code a SQLSTATE overrides the default one with.
fn sqlstate_code_override(state: &str) -> (r: Option<AppCode>)
    ensures
        r == sqlstate_code(state@),
{
    if str_eq(state, "23505") {
        Some(AppCode::UserAlreadyExists)
    } else if str_eq(state, "23503") {
        Some(AppCode::Conflict)
    } else if str_eq(state, "23502") || str_eq(state, "23514") {
        Some(AppCode::Validation)
    } else {
        None
    }
}

/// The retry delay a SQLSTATE suggests.
fn sqlstate_retry_hint(state: &str) -> (r: Option<u64>)
    ensures
        r == sqlstate_retry(state@),
{
    if str_eq(state, "40001") || str_eq(state, "55P03") {
        Some(1)
    } else {
        None
    }
}

/// Adds a string field when the text is present.
fn with_optional(ctx: Context, name: &'static str, text: &Option<String>) -> (r: Context)
    ensures
        r@ == with_optional_text(ctx@, name, *text),
{
    match text {
        Some(t) => ctx.with(field::str(name, t.clone())),
        None => ctx,
    }
}

/// Classifies a server failure: its context and retry delay.
pub fn classify_database_error(error: &DatabaseFailure) -> (r: (Context, Option<u64>))
    ensures
        (r.0@, r.1) == database_context(*error),
{
    let mut context = Context::new(AppErrorKind::Database)
        .with(field::str("db.reason", "database_error"))
        .with(field::str("db.message", error.message.clone()));
    context = with_optional(context, "db.constraint", &error.constraint);
    context = with_optional(context, "db.table", &error.table);
    context = with_optional(context, "db.code", &error.code);
    assert(context@ =~= database_recorded(*error));
    let mut retry_after: Option<u64> = None;
    let mut code_override: Option<AppCode> = None;
    if let Some(state) = &error.code {
        retry_after = sqlstate_retry_hint(state.as_str());
        code_override = sqlstate_code_override(state.as_str());
    }
    let category = match error.kind {
        DatabaseErrorKind::UniqueViolation => AppErrorKind::Conflict,
        DatabaseErrorKind::ForeignKeyViolation => AppErrorKind::Conflict,
        DatabaseErrorKind::NotNullViolation | DatabaseErrorKind::CheckViolation => AppErrorKind::Validation,
        DatabaseErrorKind::Other => AppErrorKind::Database,
    };
    context = context.category(category);
    if let Some(code) = code_override {
        context = context.code(code);
    }
    (context, retry_after)
}

/// The context of a database failure before the retry hint is recorded,
/// and the retry delay.
pub open spec fn sql_classified(e: SqlFailure) -> (ContextView, Option<u64>) {
    let reason = |r: &'static str| text_field("db.reason", Cow::Borrowed(r));
    match e {
        SqlFailure::RowNotFound => (built_context(AppErrorKind::NotFound, seq![reason("row_not_found")]), None),
        SqlFailure::Database(db) => database_context(db),
        SqlFailure::Io(kind) => (built_context(AppErrorKind::DependencyUnavailable, seq![
            reason("io_error"),
            text_field("io.kind", Cow::Owned(kind)),
        ]), None),
        SqlFailure::PoolTimedOut => (built_context(AppErrorKind::Timeout, seq![reason("pool_timeout")]), Some(1u64)),
        SqlFailure::PoolClosed => (built_context(AppErrorKind::DependencyUnavailable, seq![reason("pool_closed")]), None),
        SqlFailure::WorkerCrashed => (built_context(AppErrorKind::DependencyUnavailable, seq![reason("worker_crashed")]), Some(1u64)),
        SqlFailure::Configuration(d) => (built_context(AppErrorKind::Config, seq![
            reason("configuration"),
            text_field("db.detail", Cow::Owned(d)),
        ]), None),
        SqlFailure::InvalidArgument(a) => (built_context(AppErrorKind::BadRequest, seq![
            reason("invalid_argument"),
            text_field("db.argument", Cow::Owned(a)),
        ]), None),
        SqlFailure::ColumnDecode { index } => (built_context(AppErrorKind::Deserialization, seq![
            reason("column_decode"),
            text_field("db.column", Cow::Owned(index)),
        ]), None),
        SqlFailure::ColumnNotFound(c) => (built_context(AppErrorKind::Internal, seq![
            reason("column_not_found"),
            text_field("db.column", Cow::Owned(c)),
        ]), None),
        SqlFailure::ColumnIndexOutOfBounds { index, len } => (built_context(AppErrorKind::Internal, seq![
            reason("column_index_out_of_bounds"),
            value_field("db.index", FieldValue::U64(index)),
            value_field("db.len", FieldValue::U64(len)),
        ]), None),
        SqlFailure::TypeNotFound { name } => (built_context(AppErrorKind::Internal, seq![
            reason("type_not_found"),
            text_field("db.type", Cow::Owned(name)),
        ]), None),
        SqlFailure::Encode => (built_context(AppErrorKind::Serialization, seq![reason("encode")]), None),
        SqlFailure::Decode => (built_context(AppErrorKind::Deserialization, seq![reason("decode")]), None),
        SqlFailure::Protocol(d) => (built_context(AppErrorKind::DependencyUnavailable, seq![
            reason("protocol"),
            text_field("db.detail", Cow::Owned(d)),
        ]), Some(1u64)),
        SqlFailure::Tls => (built_context(AppErrorKind::Network, seq![reason("tls")]), Some(1u64)),
        SqlFailure::AnyDriverError => (built_context(AppErrorKind::Database, seq![reason("driver_error")]), None),
        SqlFailure::InvalidSavePointStatement => (built_context(AppErrorKind::Internal, seq![reason("invalid_savepoint")]), None),
        SqlFailure::BeginFailed => (built_context(AppErrorKind::DependencyUnavailable, seq![reason("begin_failed")]), Some(1u64)),
        SqlFailure::Other(d) => (built_context(AppErrorKind::Database, seq![
            reason("unclassified"),
            text_field("db.detail", Cow::Owned(d)),
        ]), None),
    }
}

/// The context of a database failure, with the retry hint recorded when
/// there is one, and the retry delay.
pub open spec fn sql_context(e: SqlFailure) -> (ContextView, Option<u64>) {
    let (v, retry) = sql_classified(e);
    (match retry {
        Some(secs) => ctx_with(v, value_field("db.retry_after_hint_secs", FieldValue::U64(secs))),
        None => v,
    }, retry)
}

/// Classifies a database failure before the retry hint is recorded.
#[verifier::rlimit(40)]
fn classify_sql_failure(err: &SqlFailure) -> (r: (Context, Option<u64>))
    ensures
        (r.0@, r.1) =~= sql_classified(*err),
{
    match err {
        SqlFailure::RowNotFound => (Context::new(AppErrorKind::NotFound).with(field::str("db.reason", "row_not_found")), None),
        SqlFailure::Database(db) => classify_database_error(db),
        SqlFailure::Io(kind) => (
            Context::new(AppErrorKind::DependencyUnavailable)
                .with(field::str("db.reason", "io_error"))
                .with(field::str("io.kind", kind.clone())),
            None,
        ),
        SqlFailure::PoolTimedOut => (Context::new(AppErrorKind::Timeout).with(field::str("db.reason", "pool_timeout")), Some(1)),
        SqlFailure::PoolClosed => (
            Context::new(AppErrorKind::DependencyUnavailable).with(field::str("db.reason", "pool_closed")),
            None,
        ),
        SqlFailure::WorkerCrashed => (
            Context::new(AppErrorKind::DependencyUnavailable).with(field::str("db.reason", "worker_crashed")),
            Some(1),
        ),
        SqlFailure::Configuration(detail) => (
            Context::new(AppErrorKind::Config)
                .with(field::str("db.reason", "configuration"))
                .with(field::str("db.detail", detail.clone())),
            None,
        ),
        SqlFailure::InvalidArgument(argument) => (
            Context::new(AppErrorKind::BadRequest)
                .with(field::str("db.reason", "invalid_argument"))
                .with(field::str("db.argument", argument.clone())),
            None,
        ),
        SqlFailure::ColumnDecode { index } => (
            Context::new(AppErrorKind::Deserialization)
                .with(field::str("db.reason", "column_decode"))
                .with(field::str("db.column", index.clone())),
            None,
        ),
        SqlFailure::ColumnNotFound(column) => (
            Context::new(AppErrorKind::Internal)
                .with(field::str("db.reason", "column_not_found"))
                .with(field::str("db.column", column.clone())),
            None,
        ),
        SqlFailure::ColumnIndexOutOfBounds { index, len } => (
            Context::new(AppErrorKind::Internal)
                .with(field::str("db.reason", "column_index_out_of_bounds"))
                .with(field::u64("db.index", *index))
                .with(field::u64("db.len", *len)),
            None,
        ),
        SqlFailure::TypeNotFound { name } => (
            Context::new(AppErrorKind::Internal)
                .with(field::str("db.reason", "type_not_found"))
                .with(field::str("db.type", name.clone())),
            None,
        ),
        SqlFailure::Encode => (Context::new(AppErrorKind::Serialization).with(field::str("db.reason", "encode")), None),
        SqlFailure::Decode => (Context::new(AppErrorKind::Deserialization).with(field::str("db.reason", "decode")), None),
        SqlFailure::Protocol(detail) => (
            Context::new(AppErrorKind::DependencyUnavailable)
                .with(field::str("db.reason", "protocol"))
                .with(field::str("db.detail", detail.clone())),
            Some(1),
        ),
        SqlFailure::Tls => (Context::new(AppErrorKind::Network).with(field::str("db.reason", "tls")), Some(1)),
        SqlFailure::AnyDriverError => (Context::new(AppErrorKind::Database).with(field::str("db.reason", "driver_error")), None),
        SqlFailure::InvalidSavePointStatement => (
            Context::new(AppErrorKind::Internal).with(field::str("db.reason", "invalid_savepoint")),
            None,
        ),
        SqlFailure::BeginFailed => (
            Context::new(AppErrorKind::DependencyUnavailable).with(field::str("db.reason", "begin_failed")),
            Some(1),
        ),
        SqlFailure::Other(detail) => (
            Context::new(AppErrorKind::Database)
                .with(field::str("db.reason", "unclassified"))
                .with(field::str("db.detail", detail.clone())),
            None,
        ),
    }
}

/// Builds the context of a database failure and its retry delay.
pub fn build_sql_context(err: &SqlFailure) -> (r: (Context, Option<u64>))
    ensures
        (r.0@, r.1) == sql_context(*err),
{
    let (mut context, retry_after) = classify_sql_failure(err);
    if let Some(secs) = retry_after {
        context = context.with(field::u64("db.retry_after_hint_secs", secs));
    }
    (context, retry_after)
}

/// The error of a database failure, with the suggested retry advice,
/// caused by the given chain.
pub fn sql_error(err: &SqlFailure, source_chain: Vec<String>) -> (r: Error)
    ensures
        built_error_with_retry(r, sql_context(*err).0, source_chain, sql_context(*err).1),
{
    let (context, retry) = build_sql_context(err);
    error_with_retry(context, retry, source_chain)
}

/// Why a schema migration failed.
#[derive(Debug, Clone, PartialEq, Eq)]
pub enum MigrateFailure {
    /// Reversible and simple migrations are mixed.
    InvalidMixReversibleAndSimple,
    /// Running migrations failed, with the cause's description.
    Execute(String),
    /// Running one migration failed, with the cause's description.
    ExecuteMigration(String, i64),
    /// Reading migrations failed, with the cause's description.
    Source(String),
    /// A migration applied before is missing.
    VersionMissing(i64),
    /// An applied migration was changed.
    VersionMismatch(i64),
    /// A requested version does not exist.
    VersionNotPresent(i64),
    /// A requested version is older than the oldest one (version, latest).
    VersionTooOld(i64, i64),
    /// A requested version is newer than the latest one (version, latest).
    VersionTooNew(i64, i64),
    /// Forcing is not supported.
    ForceNotSupported,
    /// A migration was left partially applied.
    Dirty(i64),
    /// Any other failure, by its description.
    Other(String),
}

/// Whether migrations of both styles were mixed.
pub fn is_invalid_mix(err: &MigrateFailure) -> (r: bool)
    ensures
        r == (*err is InvalidMixReversibleAndSimple),
{
    match err {
        MigrateFailure::InvalidMixReversibleAndSimple => true,
        _ => false,
    }
}

/// The context of a failed migration: a database error with the phase and
/// what the failure tells about it.
pub open spec fn migrate_context(e: MigrateFailure) -> ContextView {
    let phase = |p: &'static str| text_field("migration.phase", Cow::Borrowed(p));
    let version = |v: i64| value_field("migration.version", FieldValue::I64(v));
    let latest = |v: i64| value_field("migration.latest", FieldValue::I64(v));
    let source = |s: String| text_field("migration.source", Cow::Owned(s));
    built_context(AppErrorKind::Database, match e {
        MigrateFailure::InvalidMixReversibleAndSimple => seq![phase("invalid_mix")],
        MigrateFailure::Execute(s) => seq![phase("execute"), source(s)],
        MigrateFailure::ExecuteMigration(s, v) => seq![phase("execute_migration"), version(v), source(s)],
        MigrateFailure::Source(s) => seq![phase("source"), source(s)],
        MigrateFailure::VersionMissing(v) => seq![phase("version_missing"), version(v)],
        MigrateFailure::VersionMismatch(v) => seq![phase("version_mismatch"), version(v)],
        MigrateFailure::VersionNotPresent(v) => seq![phase("version_not_present"), version(v)],
        MigrateFailure::VersionTooOld(v, l) => seq![phase("version_too_old"), version(v), latest(l)],
        MigrateFailure::VersionTooNew(v, l) => seq![phase("version_too_new"), version(v), latest(l)],
        MigrateFailure::ForceNotSupported => seq![phase("force_not_supported")],
        MigrateFailure::Dirty(v) => seq![phase("dirty"), version(v)],
        MigrateFailure::Other(d) => seq![phase("unclassified"), text_field("migration.detail", Cow::Owned(d))],
    })
}

/// Builds the context of a failed migration.
#[verifier::rlimit(40)]
pub fn build_migrate_context(err: &MigrateFailure) -> (r: Context)
    ensures
        r@ =~= migrate_context(*err),
{
    let ctx = Context::new(AppErrorKind::Database);
    if is_invalid_mix(err) {
        return ctx.with(field::str("migration.phase", "invalid_mix"));
    }
    match err {
        MigrateFailure::Execute(s) => ctx
            .with(field::str("migration.phase", "execute"))
            .with(field::str("migration.source", s.clone())),
        MigrateFailure::ExecuteMigration(s, v) => ctx
            .with(field::str("migration.phase", "execute_migration"))
            .with(field::i64("migration.version", *v))
            .with(field::str("migration.source", s.clone())),
        MigrateFailure::Source(s) => ctx
            .with(field::str("migration.phase", "source"))
            .with(field::str("migration.source", s.clone())),
        MigrateFailure::VersionMissing(v) => ctx
            .with(field::str("migration.phase", "version_missing"))
            .with(field::i64("migration.version", *v)),
        MigrateFailure::VersionMismatch(v) => ctx
            .with(field::str("migration.phase", "version_mismatch"))
            .with(field::i64("migration.version", *v)),
        MigrateFailure::VersionNotPresent(v) => ctx
            .with(field::str("migration.phase", "version_not_present"))
            .with(field::i64("migration.version", *v)),
        MigrateFailure::VersionTooOld(v, l) => ctx
            .with(field::str("migration.phase", "version_too_old"))
            .with(field::i64("migration.version", *v))
            .with(field::i64("migration.latest", *l)),
        MigrateFailure::VersionTooNew(v, l) => ctx
            .with(field::str("migration.phase", "version_too_new"))
            .with(field::i64("migration.version", *v))
            .with(field::i64("migration.latest", *l)),
        MigrateFailure::ForceNotSupported => ctx.with(field::str("migration.phase", "force_not_supported")),
        MigrateFailure::Dirty(v) => ctx
            .with(field::str("migration.phase", "dirty"))
            .with(field::i64("migration.version", *v)),
        MigrateFailure::InvalidMixReversibleAndSimple => ctx.with(field::str("migration.phase", "invalid_mix")),
        MigrateFailure::Other(d) => ctx
            .with(field::str("migration.phase", "unclassified"))
            .with(field::str("migration.detail", d.clone())),
    }
}

/// The error of a failed migration, caused by the given chain.
pub fn migrate_error(err: &MigrateFailure, source_chain: Vec<String>) -> (r: Error)
    ensures
        built_error(r, migrate_context(*err), source_chain),
{
    build_migrate_context(err).into_error(source_chain)
}

} // verus!
verus! {

/// How a server failure is classified: unique and foreign-key violations
/// are conflicts, not-null and check violations validation failures, and
/// anything else a database error. SQLSTATE `23505` gives the public code
/// `USER_ALREADY_EXISTS`, `23503` gives `CONFLICT`, `23502` and `23514`
/// give `VALIDATION`; without a SQLSTATE the code is the kind's own.
/// `40001` and `55P03` suggest retrying after one second.
pub proof fn law_database_failure_classification(e: DatabaseFailure)
    ensures
        ({
            let (v, retry) = sql_context(SqlFailure::Database(e));
            &&& e.kind == DatabaseErrorKind::UniqueViolation ==> v.category == AppErrorKind::Conflict
            &&& e.kind == DatabaseErrorKind::ForeignKeyViolation ==> v.category == AppErrorKind::Conflict
            &&& e.kind == DatabaseErrorKind::NotNullViolation ==> v.category == AppErrorKind::Validation
            &&& e.kind == DatabaseErrorKind::CheckViolation ==> v.category == AppErrorKind::Validation
            &&& e.kind == DatabaseErrorKind::Other ==> v.category == AppErrorKind::Database
            &&& (e.code matches Some(s) && s@ == "23505"@) ==> v.code == AppCode::UserAlreadyExists
            &&& (e.code matches Some(s) && s@ == "23503"@) ==> v.code == AppCode::Conflict
            &&& (e.code matches Some(s) && (s@ == "23502"@ || s@ == "23514"@)) ==> v.code == AppCode::Validation
            &&& e.code is None ==> v.code == code_of_kind(v.category) && retry is None
            &&& (e.code matches Some(s) && (s@ == "40001"@ || s@ == "55P03"@)) ==> retry == Some(1u64)
        }),
{
    let recorded = database_recorded(e);
    assert(!recorded.code_overridden);
    let classified = ctx_category(recorded, database_kind(e.kind));
    assert(classified.category == database_kind(e.kind));
    assert(classified.code == code_of_kind(database_kind(e.kind)));
    let (c, retry) = database_context(e);
    let v = sql_context(SqlFailure::Database(e)).0;
    assert(v.category == c.category && v.code == c.code);
    assert(c.category == database_kind(e.kind));
    lemma_sqlstate_tables();
}

/// What the SQLSTATE tables give for the states they name.
proof fn lemma_sqlstate_tables()
    ensures
        sqlstate_code("23505"@) == Some(AppCode::UserAlreadyExists),
        sqlstate_code("23503"@) == Some(AppCode::Conflict),
        sqlstate_code("23502"@) == Some(AppCode::Validation),
        sqlstate_code("23514"@) == Some(AppCode::Validation),
        sqlstate_retry("40001"@) == Some(1u64),
        sqlstate_retry("55P03"@) == Some(1u64),
{
    reveal_strlit("23505");
    reveal_strlit("23503");
    reveal_strlit("23502");
    reveal_strlit("23514");
    reveal_strlit("40001");
    reveal_strlit("55P03");
    assert("23503"@[4] != "23505"@[4]);
    assert("23502"@[4] != "23505"@[4]);
    assert("23502"@[4] != "23503"@[4]);
    assert("23514"@[3] != "23505"@[3]);
    assert("23514"@[3] != "23503"@[3]);
}

} // verus!
