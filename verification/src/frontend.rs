//! Errors raised while forwarding errors to a browser console.

use vstd::prelude::*;

use crate::text::{owned, push_str};

verus! {

/// Error raised when an error cannot be logged to the browser console.
#[derive(Debug, Clone, PartialEq, Eq)]
pub enum BrowserConsoleError {
    /// The payload could not be serialized.
    Serialization {
        /// What the serializer reported.
        message: String,
    },
    /// The global `console` object is missing.
    ConsoleUnavailable {
        /// What the runtime reported.
        message: String,
    },
    /// `console.error` could not be read.
    ConsoleErrorUnavailable {
        /// What the runtime reported.
        message: String,
    },
    /// `console.error` is not a function.
    ConsoleMethodNotCallable,
    /// Calling `console.error` failed.
    ConsoleInvocation {
        /// What the runtime reported.
        message: String,
    },
    /// The target has no browser console.
    UnsupportedTarget,
}

/// The message a variant carries, if any.
pub open spec fn console_error_context(e: BrowserConsoleError) -> Option<Seq<char>> {
    match e {
        BrowserConsoleError::Serialization { message } => Some(message@),
        BrowserConsoleError::ConsoleUnavailable { message } => Some(message@),
        BrowserConsoleError::ConsoleErrorUnavailable { message } => Some(message@),
        BrowserConsoleError::ConsoleInvocation { message } => Some(message@),
        BrowserConsoleError::ConsoleMethodNotCallable => None,
        BrowserConsoleError::UnsupportedTarget => None,
    }
}

/// The human-readable description of each variant.
pub open spec fn console_error_text(e: BrowserConsoleError) -> Seq<char> {
    match e {
        BrowserConsoleError::Serialization { message } => "failed to serialize payload for browser console: "@ + message@,
        BrowserConsoleError::ConsoleUnavailable { message } => "browser console object is not available: "@ + message@,
        BrowserConsoleError::ConsoleErrorUnavailable { message } => "failed to access browser console `error`: "@ + message@,
        BrowserConsoleError::ConsoleMethodNotCallable => "browser console `error` method is not callable"@,
        BrowserConsoleError::ConsoleInvocation { message } => "failed to invoke browser console `error`: "@ + message@,
        BrowserConsoleError::UnsupportedTarget => "browser console logging is not supported on this target"@,
    }
}

impl BrowserConsoleError {
    /// The message carried by the variants that have one.
    pub fn context(&self) -> (r: Option<&str>)
        ensures
            (match r {
                Some(s) => Some(s@),
                None => None,
            }) == console_error_context(*self),
    {
        match self {
            BrowserConsoleError::Serialization { message }
            | BrowserConsoleError::ConsoleUnavailable { message }
            | BrowserConsoleError::ConsoleErrorUnavailable { message }
            | BrowserConsoleError::ConsoleInvocation { message } => Some(message.as_str()),
            BrowserConsoleError::ConsoleMethodNotCallable | BrowserConsoleError::UnsupportedTarget => None,
        }
    }

    /// The human-readable description (the error's display form).
    pub fn to_string(&self) -> (r: String)
        ensures
            r@ == console_error_text(*self),
    {
        match self {
            BrowserConsoleError::Serialization { message } => {
                let mut out = owned("failed to serialize payload for browser console: ");
                push_str(&mut out, message.as_str());
                out
            }
            BrowserConsoleError::ConsoleUnavailable { message } => {
                let mut out = owned("browser console object is not available: ");
                push_str(&mut out, message.as_str());
                out
            }
            BrowserConsoleError::ConsoleErrorUnavailable { message } => {
                let mut out = owned("failed to access browser console `error`: ");
                push_str(&mut out, message.as_str());
                out
            }
            BrowserConsoleError::ConsoleMethodNotCallable => owned("browser console `error` method is not callable"),
            BrowserConsoleError::ConsoleInvocation { message } => {
                let mut out = owned("failed to invoke browser console `error`: ");
                push_str(&mut out, message.as_str());
                out
            }
            BrowserConsoleError::UnsupportedTarget => owned("browser console logging is not supported on this target"),
        }
    }
}

} // verus!
