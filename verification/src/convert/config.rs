//! Errors from loading configuration.

use std::borrow::Cow;

use vstd::prelude::*;

use crate::context::{built_context, built_error, ctx_with, text_field, Context, ContextView};
use crate::error::Error;
use crate::field;
use crate::kind::AppErrorKind;

verus! {

/// Why configuration could not be loaded.
#[derive(Debug, Clone, PartialEq, Eq)]
pub enum ConfigFailure {
    /// The configuration is frozen.
    Frozen,
    /// A key is missing.
    NotFound(String),
    /// A key path could not be parsed.
    PathParse,
    /// A source file could not be parsed.
    FileParse {
        /// The file, when known.
        uri: Option<String>,
    },
    /// A value has the wrong type.
    Type {
        /// Where the value came from, when known.
        origin: Option<String>,
        /// Description of the value found.
        unexpected: String,
        /// Name of the type expected.
        expected: &'static str,
        /// The key, when known.
        key: Option<String>,
    },
    /// A failure located at a key or origin.
    At {
        /// Where the value came from, when known.
        origin: Option<String>,
        /// The key, when known.
        key: Option<String>,
    },
    /// A free-form failure.
    Message(String),
    /// A failure from a custom source.
    Foreign,
    /// Any other failure, by its description.
    Other(String),
}

/// The context with a field added when the text is present.
pub open spec fn with_optional_text(v: ContextView, name: &'static str, text: Option<String>) -> ContextView {
    match text {
        Some(t) => ctx_with(v, text_field(name, Cow::Owned(t))),
        None => v,
    }
}

/// The context of a configuration failure: a configuration error with the
/// phase and what the failure tells about it.
pub open spec fn config_context(e: ConfigFailure) -> ContextView {
    let phase = |p: &'static str| text_field("config.phase", Cow::Borrowed(p));
    match e {
        ConfigFailure::Frozen => built_context(AppErrorKind::Config, seq![phase("frozen")]),
        ConfigFailure::NotFound(key) => built_context(AppErrorKind::Config, seq![
            phase("not_found"),
            text_field("config.key", Cow::Owned(key)),
        ]),
        ConfigFailure::PathParse => built_context(AppErrorKind::Config, seq![phase("path_parse")]),
        ConfigFailure::FileParse { uri } => with_optional_text(
            built_context(AppErrorKind::Config, seq![phase("file_parse")]),
            "config.uri",
            uri,
        ),
        ConfigFailure::Type { origin, unexpected, expected, key } => with_optional_text(
            with_optional_text(
                built_context(AppErrorKind::Config, seq![
                    phase("type"),
                    text_field("config.expected", Cow::Borrowed(expected)),
                    text_field("config.unexpected", Cow::Owned(unexpected)),
                ]),
                "config.origin",
                origin,
            ),
            "config.key",
            key,
        ),
        ConfigFailure::At { origin, key } => with_optional_text(
            with_optional_text(built_context(AppErrorKind::Config, seq![phase("at")]), "config.origin", origin),
            "config.key",
            key,
        ),
        ConfigFailure::Message(m) => built_context(AppErrorKind::Config, seq![
            phase("message"),
            text_field("config.message", Cow::Owned(m)),
        ]),
        ConfigFailure::Foreign => built_context(AppErrorKind::Config, seq![phase("foreign")]),
        ConfigFailure::Other(d) => built_context(AppErrorKind::Config, seq![
            phase("unclassified"),
            text_field("config.debug", Cow::Owned(d)),
        ]),
    }
}

/// Adds a string field when the text is present.
fn with_optional(ctx: Context, name: &'static str, text: &Option<String>) -> (r: Context)
    ensures
        r@ == with_optional_text(ctx@, name, *text),
{
    match text {
        Some(t) => ctx.with(field::str(name, t.clone())),
        None => ctx,
    }
}

/// Builds the context of a configuration failure.
pub fn build_config_context(error: &ConfigFailure) -> (r: Context)
    ensures
        r@ =~= config_context(*error),
{
    let ctx = Context::new(AppErrorKind::Config);
    match error {
        ConfigFailure::Frozen => ctx.with(field::str("config.phase", "frozen")),
        ConfigFailure::NotFound(key) => ctx
            .with(field::str("config.phase", "not_found"))
            .with(field::str("config.key", key.clone())),
        ConfigFailure::PathParse => ctx.with(field::str("config.phase", "path_parse")),
        ConfigFailure::FileParse { uri } => {
            let c = ctx.with(field::str("config.phase", "file_parse"));
            with_optional(c, "config.uri", uri)
        }
        ConfigFailure::Type { origin, unexpected, expected, key } => {
            let c = ctx
                .with(field::str("config.phase", "type"))
                .with(field::str("config.expected", *expected))
                .with(field::str("config.unexpected", unexpected.clone()));
            let c = with_optional(c, "config.origin", origin);
            with_optional(c, "config.key", key)
        }
        ConfigFailure::At { origin, key } => {
            let c = ctx.with(field::str("config.phase", "at"));
            let c = with_optional(c, "config.origin", origin);
            with_optional(c, "config.key", key)
        }
        ConfigFailure::Message(message) => ctx
            .with(field::str("config.phase", "message"))
            .with(field::str("config.message", message.clone())),
        ConfigFailure::Foreign => ctx.with(field::str("config.phase", "foreign")),
        ConfigFailure::Other(debug) => ctx
            .with(field::str("config.phase", "unclassified"))
            .with(field::str("config.debug", debug.clone())),
    }
}

/// The error of a configuration failure, caused by the given chain.
pub fn config_error(error: &ConfigFailure, source_chain: Vec<String>) -> (r: Error)
    ensures
        built_error(r, config_context(*error), source_chain),
{
    build_config_context(error).into_error(source_chain)
}

} // verus!
