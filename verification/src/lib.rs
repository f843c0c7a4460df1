//! Framework-agnostic application error types with verified contracts.
//!
//! The crate models a stable error taxonomy ([`AppErrorKind`]), public
//! machine-readable codes ([`AppCode`]), a rich error value ([`AppError`])
//! with structured metadata, diagnostics and environment-aware rendering.

pub mod backtrace;
pub mod code;
pub mod constructors;
pub mod context;
pub mod convert;
pub mod diagnostics;
pub mod display;
pub mod error;
pub mod field;
pub mod format;
pub mod frontend;
pub mod kind;
pub mod message;
pub mod redaction;
pub mod metadata;
pub mod redaction_policy;
pub mod style;
mod text;

pub mod inline_vec;

pub use code::{AppCode, ParseAppCodeError};
pub use context::Context;
pub use diagnostics::{DiagnosticVisibility, Diagnostics, DocLink, Hint, Suggestion};
pub use display::{DisplayMode, DisplayModeState, Environment, MODE_CACHE_UNSET};
pub use error::{AppError, AppResult, Error, MessageEditPolicy, RetryAdvice};
pub use frontend::BrowserConsoleError;
pub use kind::AppErrorKind;
pub use metadata::{Field, FieldValue, Metadata};
pub use redaction_policy::FieldRedaction;
