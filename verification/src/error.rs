//! The application error value: a kind, a public code, an optional
//! safe-to-expose message, structured metadata, transport hints and
//! diagnostics.

use std::backtrace::Backtrace;
use std::borrow::Cow;
use std::sync::Arc;

use vstd::prelude::*;
use vstd::std_specs::convert::FromSpecImpl;

use crate::backtrace::{capture_backtrace_snapshot, capture_step, opt_view, BacktraceState, CapturedBacktrace};
use crate::code::{code_of_kind, AppCode};
use crate::diagnostics::{DiagnosticVisibility, Diagnostics, DocLink, Hint, Suggestion};
use crate::kind::{kind_label_text, kind_status, status_code_of, status_number, AppErrorKind};
use crate::message::IntoMessage;
use crate::metadata::{lookup, lookup_last, Field, FieldView, Metadata};
use crate::redaction::cow_str;
use crate::redaction_policy::FieldRedaction;

verus! {

/// Whether the message may be shown at the transport boundary.
#[derive(Clone, Copy, Debug, PartialEq, Eq, Default, Structural)]
pub enum MessageEditPolicy {
    /// The message is public.
    #[default]
    Preserve,
    /// The message must be hidden from clients.
    Redact,
}

/// Retry advice (`Retry-After`) attached to an error.
#[derive(Clone, Copy, Debug, PartialEq, Eq, Structural)]
pub struct RetryAdvice {
    /// Seconds to wait before retrying.
    pub after_seconds: u64,
}

/// Rich application error.
#[derive(Debug)]
pub struct Error {
    /// Public machine-readable code.
    pub code: AppCode,
    /// Semantic category.
    pub kind: AppErrorKind,
    /// Optional public message.
    pub message: Option<Cow<'static, str>>,
    /// Structured metadata.
    pub metadata: Metadata,
    /// Whether the message is hidden from clients.
    pub edit_policy: MessageEditPolicy,
    /// Optional retry advice.
    pub retry: Option<RetryAdvice>,
    /// Optional authentication challenge (`WWW-Authenticate`).
    pub www_authenticate: Option<String>,
    /// Optional free-form details.
    pub details: Option<String>,
    /// Optional diagnostics.
    pub diagnostics: Option<Diagnostics>,
    /// Messages of the underlying cause and of its own causes, outermost
    /// first (empty when no cause is attached).
    pub source_chain: Vec<String>,
    /// Backtrace attached explicitly.
    pub backtrace: Option<Arc<Backtrace>>,
    /// Outcome of the first request for a backtrace when none was attached:
    /// `None` until requested, then the snapshot taken (or `None` when
    /// capturing was decided against).
    pub captured_backtrace: Option<Option<Arc<Backtrace>>>,
}

/// The application error type.
pub type AppError = Error;

/// Result alias with [`AppError`] as the error.
pub type AppResult<T, E = Error> = Result<T, E>;

/// A freshly built error of `kind`: the kind's code, no metadata, public
/// message policy, no retry advice, challenge, details or diagnostics.
pub open spec fn is_fresh(e: Error, kind: AppErrorKind) -> bool {
    &&& e.kind == kind
    &&& e.code == code_of_kind(kind)
    &&& e.metadata@ == Seq::<FieldView>::empty()
    &&& e.edit_policy == MessageEditPolicy::Preserve
    &&& e.retry is None
    &&& e.www_authenticate is None
    &&& e.details is None
    &&& e.diagnostics is None
    &&& e.source_chain@ == Seq::<String>::empty()
    &&& e.backtrace is None
    &&& e.captured_backtrace is None
}

/// The error's message text equals `text`.
pub open spec fn has_message(e: Error, text: Seq<char>) -> bool {
    e.message matches Some(m) && m@ == text
}

/// Hints attached so far (none when there are no diagnostics).
pub open spec fn hints_of(d: Option<Diagnostics>) -> Seq<Hint> {
    match d {
        Some(d) => d.hints@,
        None => Seq::empty(),
    }
}

/// Suggestions attached so far.
pub open spec fn suggestions_of(d: Option<Diagnostics>) -> Seq<Suggestion> {
    match d {
        Some(d) => d.suggestions@,
        None => Seq::empty(),
    }
}

/// Related codes attached so far.
pub open spec fn related_codes_of(d: Option<Diagnostics>) -> Seq<Cow<'static, str>> {
    match d {
        Some(d) => d.related_codes@,
        None => Seq::empty(),
    }
}

/// Documentation link attached so far.
pub open spec fn doc_link_of(d: Option<Diagnostics>) -> Option<DocLink> {
    match d {
        Some(d) => d.doc_link,
        None => None,
    }
}

/// Converts a message into an owned string.
pub fn cow_into_string(c: Cow<'static, str>) -> (r: String)
    ensures
        r@ == c@,
{
    match c {
        Cow::Borrowed(s) => s.to_owned(),
        Cow::Owned(s) => s,
    }
}

impl Error {
    /// An error of `kind` with an optional message.
    pub fn new_raw(kind: AppErrorKind, message: Option<Cow<'static, str>>) -> (r: Error)
        ensures
            is_fresh(r, kind),
            r.message == message,
    {
        Error {
            code: AppCode::from_kind(kind),
            kind,
            message,
            metadata: Metadata::new(),
            edit_policy: MessageEditPolicy::Preserve,
            retry: None,
            www_authenticate: None,
            details: None,
            diagnostics: None,
            source_chain: Vec::new(),
            backtrace: None,
            captured_backtrace: None,
        }
    }

    /// An error of `kind` with a message.
    pub fn new<M: IntoMessage>(kind: AppErrorKind, msg: M) -> (r: Error)
        ensures
            is_fresh(r, kind),
            has_message(r, msg.message_text()),
    {
        Self::with(kind, msg)
    }

    /// An error of `kind` with a message.
    pub fn with<M: IntoMessage>(kind: AppErrorKind, msg: M) -> (r: Error)
        ensures
            is_fresh(r, kind),
            has_message(r, msg.message_text()),
    {
        Self::new_raw(kind, Some(msg.into_message()))
    }

    /// An error of `kind` without a message.
    pub fn bare(kind: AppErrorKind) -> (r: Error)
        ensures
            is_fresh(r, kind),
            r.message is None,
    {
        Self::new_raw(kind, None)
    }

    /// The same error with another public code.
    pub fn with_code(self, code: AppCode) -> (r: Error)
        ensures
            r == (Error { code, ..self }),
    {
        Error { code, ..self }
    }

    /// The same error advising a retry after `secs` seconds.
    pub fn with_retry_after_secs(self, secs: u64) -> (r: Error)
        ensures
            r == (Error { retry: Some(RetryAdvice { after_seconds: secs }), ..self }),
    {
        Error { retry: Some(RetryAdvice { after_seconds: secs }), ..self }
    }

    /// The same error with an authentication challenge.
    pub fn with_www_authenticate<M: IntoMessage>(self, value: M) -> (r: Error)
        ensures
            r.www_authenticate matches Some(w) && w@ == value.message_text(),
            r == (Error { www_authenticate: r.www_authenticate, ..self }),
    {
        Error { www_authenticate: Some(cow_into_string(value.into_message())), ..self }
    }

    /// The same error with a cause attached, given as the messages of the
    /// cause and of its own causes, outermost first.
    pub fn with_source_chain(self, chain: Vec<String>) -> (r: Error)
        ensures
            r == (Error { source_chain: chain, ..self }),
    {
        Error { source_chain: chain, ..self }
    }

    /// Sets the backtrace, replacing an attached one and forgetting one
    /// captured on request.
    fn set_backtrace_slot(&mut self, backtrace: Arc<Backtrace>)
        ensures
            *final(self) == (Error { backtrace: Some(backtrace), captured_backtrace: None, ..*old(self) }),
    {
        self.backtrace = Some(backtrace);
        self.captured_backtrace = None;
    }

    /// The same error with a captured backtrace attached.
    pub fn with_backtrace(self, backtrace: CapturedBacktrace) -> (r: Error)
        ensures
            r.backtrace matches Some(b) && b == backtrace,
            r == (Error { backtrace: r.backtrace, captured_backtrace: None, ..self }),
    {
        let mut e = self;
        e.set_backtrace_slot(Arc::new(backtrace));
        e
    }

    /// The same error sharing a backtrace held elsewhere too.
    pub fn with_shared_backtrace(self, backtrace: Arc<Backtrace>) -> (r: Error)
        ensures
            r == (Error { backtrace: Some(backtrace), captured_backtrace: None, ..self }),
    {
        let mut e = self;
        e.set_backtrace_slot(backtrace);
        e
    }

    /// The backtrace: the attached one; else the one captured on the first
    /// request, which this call makes when none was made yet, capturing
    /// only when the decision that `state` caches (or detects from
    /// `rust_backtrace`) is to capture.
    pub fn backtrace(&mut self, state: &mut BacktraceState, rust_backtrace: Option<&str>) -> (r: Option<&CapturedBacktrace>)
        ensures
            old(self).backtrace is Some || old(self).captured_backtrace is Some ==> {
                &&& *final(self) == *old(self)
                &&& *final(state) == *old(state)
            },
            old(self).backtrace is None && old(self).captured_backtrace is None ==> {
                &&& final(self).captured_backtrace matches Some(c)
                    && (c is Some, *final(state)) == capture_step(*old(state), opt_view(rust_backtrace))
                &&& *final(self) == (Error { captured_backtrace: final(self).captured_backtrace, ..*old(self) })
            },
            r == (match final(self).backtrace {
                Some(b) => Some(&*b),
                None => match final(self).captured_backtrace {
                    Some(Some(b)) => Some(&*b),
                    _ => None,
                },
            }),
    {
        if self.backtrace.is_none() && self.captured_backtrace.is_none() {
            self.captured_backtrace = Some(capture_backtrace_snapshot(state, rust_backtrace));
        }
        match &self.backtrace {
            Some(b) => Some(&**b),
            None => match &self.captured_backtrace {
                Some(Some(b)) => Some(&**b),
                _ => None,
            },
        }
    }

    /// Whether a cause is attached.
    pub fn has_source(&self) -> (r: bool)
        ensures
            r == (self.source_chain@.len() > 0),
    {
        self.source_chain.len() > 0
    }

    /// The same error with its message marked for redaction.
    pub fn redactable(self) -> (r: Error)
        ensures
            r == (Error { edit_policy: MessageEditPolicy::Redact, ..self }),
    {
        Error { edit_policy: MessageEditPolicy::Redact, ..self }
    }

    /// The same error with free-form details.
    pub fn with_details_text<M: IntoMessage>(self, details: M) -> (r: Error)
        ensures
            r.details matches Some(d) && d@ == details.message_text(),
            r == (Error { details: r.details, ..self }),
    {
        Error { details: Some(cow_into_string(details.into_message())), ..self }
    }

    /// The same error with a metadata field inserted (replacing one of the
    /// same name).
    pub fn with_field(self, field: Field) -> (r: Error)
        ensures
            lookup(r.metadata@, field@.name) == Some(field@),
            forall|k: Seq<char>| k != field@.name ==> #[trigger] lookup(r.metadata@, k) == lookup(self.metadata@, k),
            r == (Error { metadata: r.metadata, ..self }),
    {
        let mut e = self;
        e.metadata.insert(field);
        e
    }

    /// The same error with metadata fields inserted in order.
    pub fn with_fields(self, fields: Vec<Field>) -> (r: Error)
        ensures
            forall|k: Seq<char>| #[trigger] lookup(r.metadata@, k) == (match lookup_last(fields@.map_values(|f: Field| f@), k) {
                Some(f) => Some(f),
                None => lookup(self.metadata@, k),
            }),
            r == (Error { metadata: r.metadata, ..self }),
    {
        let mut e = self;
        e.metadata.extend(fields);
        e
    }

    /// The same error with the redaction policy of one field changed.
    pub fn redact_field(self, name: &'static str, redaction: FieldRedaction) -> (r: Error)
        ensures
            lookup(r.metadata@, name@) == (match lookup(self.metadata@, name@) {
                Some(f) => Some(FieldView { redaction, ..f }),
                None => None,
            }),
            forall|k: Seq<char>| k != name@ ==> #[trigger] lookup(r.metadata@, k) == lookup(self.metadata@, k),
            r == (Error { metadata: r.metadata, ..self }),
    {
        let mut e = self;
        e.metadata.set_redaction(name, redaction);
        e
    }

    /// The same error with its metadata replaced.
    pub fn with_metadata(self, metadata: Metadata) -> (r: Error)
        ensures
            r == (Error { metadata, ..self }),
    {
        Error { metadata, ..self }
    }

    /// The error's metadata.
    pub fn metadata(&self) -> (r: &Metadata)
        ensures
            *r == self.metadata,
    {
        &self.metadata
    }

    /// The error's diagnostics, if any were attached.
    pub fn diagnostics(&self) -> (r: Option<&Diagnostics>)
        ensures
            r == (match self.diagnostics {
                Some(d) => Some(&d),
                None => None,
            }),
    {
        match &self.diagnostics {
            Some(d) => Some(d),
            None => None,
        }
    }

    /// The diagnostics, created empty when absent.
    fn take_diagnostics(&mut self) -> (r: Diagnostics)
        ensures
            r.hints@ == hints_of(old(self).diagnostics),
            r.suggestions@ == suggestions_of(old(self).diagnostics),
            r.doc_link == doc_link_of(old(self).diagnostics),
            r.related_codes@ == related_codes_of(old(self).diagnostics),
            *final(self) == (Error { diagnostics: None, ..*old(self) }),
    {
        match self.diagnostics.take() {
            Some(d) => d,
            None => Diagnostics::new(),
        }
    }

    /// The same error with a development-only hint appended.
    pub fn with_hint<M: IntoMessage>(self, message: M) -> (r: Error)
        ensures
            r.diagnostics is Some,
            hints_of(r.diagnostics) == hints_of(self.diagnostics).push(Hint {
                message: hints_of(r.diagnostics).last().message,
                visibility: DiagnosticVisibility::DevOnly,
            }),
            hints_of(r.diagnostics).last().message@ == message.message_text(),
            suggestions_of(r.diagnostics) == suggestions_of(self.diagnostics),
            doc_link_of(r.diagnostics) == doc_link_of(self.diagnostics),
            related_codes_of(r.diagnostics) == related_codes_of(self.diagnostics),
            r == (Error { diagnostics: r.diagnostics, ..self }),
    {
        let mut e = self;
        let mut d = e.take_diagnostics();
        d.hints.push(Hint::new(message));
        e.diagnostics = Some(d);
        e
    }

    /// The same error with a hint of the given visibility appended.
    pub fn with_hint_visible<M: IntoMessage>(self, message: M, visibility: DiagnosticVisibility) -> (r: Error)
        ensures
            r.diagnostics is Some,
            hints_of(r.diagnostics) == hints_of(self.diagnostics).push(Hint {
                message: hints_of(r.diagnostics).last().message,
                visibility,
            }),
            hints_of(r.diagnostics).last().message@ == message.message_text(),
            suggestions_of(r.diagnostics) == suggestions_of(self.diagnostics),
            doc_link_of(r.diagnostics) == doc_link_of(self.diagnostics),
            related_codes_of(r.diagnostics) == related_codes_of(self.diagnostics),
            r == (Error { diagnostics: r.diagnostics, ..self }),
    {
        let mut e = self;
        let mut d = e.take_diagnostics();
        d.hints.push(Hint::with_visibility(message, visibility));
        e.diagnostics = Some(d);
        e
    }

    /// The same error with a suggestion appended.
    pub fn with_suggestion<M: IntoMessage>(self, message: M) -> (r: Error)
        ensures
            r.diagnostics is Some,
            suggestions_of(r.diagnostics) == suggestions_of(self.diagnostics).push(Suggestion {
                message: suggestions_of(r.diagnostics).last().message,
                command: None,
                visibility: DiagnosticVisibility::DevOnly,
            }),
            suggestions_of(r.diagnostics).last().message@ == message.message_text(),
            hints_of(r.diagnostics) == hints_of(self.diagnostics),
            doc_link_of(r.diagnostics) == doc_link_of(self.diagnostics),
            related_codes_of(r.diagnostics) == related_codes_of(self.diagnostics),
            r == (Error { diagnostics: r.diagnostics, ..self }),
    {
        let mut e = self;
        let mut d = e.take_diagnostics();
        d.suggestions.push(Suggestion::new(message));
        e.diagnostics = Some(d);
        e
    }

    /// The same error with a suggestion and its command appended.
    pub fn with_suggestion_cmd<M: IntoMessage, C: IntoMessage>(self, message: M, command: C) -> (r: Error)
        ensures
            r.diagnostics is Some,
            suggestions_of(r.diagnostics) == suggestions_of(self.diagnostics).push(suggestions_of(r.diagnostics).last()),
            suggestions_of(r.diagnostics).last().message@ == message.message_text(),
            suggestions_of(r.diagnostics).last().command matches Some(c) && c@ == command.message_text(),
            suggestions_of(r.diagnostics).last().visibility == DiagnosticVisibility::DevOnly,
            hints_of(r.diagnostics) == hints_of(self.diagnostics),
            doc_link_of(r.diagnostics) == doc_link_of(self.diagnostics),
            related_codes_of(r.diagnostics) == related_codes_of(self.diagnostics),
            r == (Error { diagnostics: r.diagnostics, ..self }),
    {
        let mut e = self;
        let mut d = e.take_diagnostics();
        d.suggestions.push(Suggestion::with_command(message, command));
        e.diagnostics = Some(d);
        e
    }

    /// The same error with its documentation link set.
    pub fn with_docs<U: IntoMessage>(self, url: U) -> (r: Error)
        ensures
            r.diagnostics is Some,
            doc_link_of(r.diagnostics) matches Some(l) && l.url@ == url.message_text() && l.title is None
                && l.visibility == DiagnosticVisibility::Public,
            hints_of(r.diagnostics) == hints_of(self.diagnostics),
            suggestions_of(r.diagnostics) == suggestions_of(self.diagnostics),
            related_codes_of(r.diagnostics) == related_codes_of(self.diagnostics),
            r == (Error { diagnostics: r.diagnostics, ..self }),
    {
        let mut e = self;
        let mut d = e.take_diagnostics();
        d.doc_link = Some(DocLink::new(url));
        e.diagnostics = Some(d);
        e
    }

    /// The same error with a titled documentation link set.
    pub fn with_docs_titled<U: IntoMessage, T: IntoMessage>(self, url: U, title: T) -> (r: Error)
        ensures
            r.diagnostics is Some,
            doc_link_of(r.diagnostics) matches Some(l) && l.url@ == url.message_text()
                && (l.title matches Some(t) && t@ == title.message_text())
                && l.visibility == DiagnosticVisibility::Public,
            hints_of(r.diagnostics) == hints_of(self.diagnostics),
            suggestions_of(r.diagnostics) == suggestions_of(self.diagnostics),
            related_codes_of(r.diagnostics) == related_codes_of(self.diagnostics),
            r == (Error { diagnostics: r.diagnostics, ..self }),
    {
        let mut e = self;
        let mut d = e.take_diagnostics();
        d.doc_link = Some(DocLink::with_title(url, title));
        e.diagnostics = Some(d);
        e
    }

    /// The same error with a related code appended.
    pub fn with_related_code<M: IntoMessage>(self, code: M) -> (r: Error)
        ensures
            r.diagnostics is Some,
            related_codes_of(r.diagnostics) == related_codes_of(self.diagnostics).push(related_codes_of(r.diagnostics).last()),
            related_codes_of(r.diagnostics).last()@ == code.message_text(),
            hints_of(r.diagnostics) == hints_of(self.diagnostics),
            suggestions_of(r.diagnostics) == suggestions_of(self.diagnostics),
            doc_link_of(r.diagnostics) == doc_link_of(self.diagnostics),
            r == (Error { diagnostics: r.diagnostics, ..self }),
    {
        let mut e = self;
        let mut d = e.take_diagnostics();
        d.related_codes.push(code.into_message());
        e.diagnostics = Some(d);
        e
    }

    /// The message, or the kind's label when there is none.
    pub fn render_message(&self) -> (r: Cow<'_, str>)
        ensures
            r@ == (match self.message {
                Some(m) => m@,
                None => kind_label_text(self.kind),
            }),
    {
        match &self.message {
            Some(m) => Cow::Borrowed(cow_str(m)),
            None => Cow::Borrowed(self.kind.label()),
        }
    }

    /// HTTP status of the error's kind.
    pub fn http_status(&self) -> (r: http::StatusCode)
        ensures
            r == status_code_of(kind_status(self.kind)),
            status_number(r) == kind_status(self.kind),
    {
        self.kind.status_code()
    }

    /// HTTP status of the error's kind, for response builders.
    pub fn status_code(&self) -> (r: http::StatusCode)
        ensures
            r == status_code_of(kind_status(self.kind)),
            status_number(r) == kind_status(self.kind),
    {
        self.kind.status_code()
    }
}

} // verus!
