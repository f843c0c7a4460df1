//! Diagnostic information attached to errors: hints, suggestions,
//! documentation links and related codes, each with a visibility level.
//!
//! | Visibility | Local | Staging | Prod |
//! |------------|-------|---------|------|
//! | `DevOnly`  | yes   | no      | no   |
//! | `Internal` | yes   | yes     | no   |
//! | `Public`   | yes   | yes     | yes  |

use std::borrow::Cow;

use vstd::prelude::*;
use vstd::std_specs::iter::IteratorSpec;

use crate::inline_vec::InlineVec;
use crate::message::IntoMessage;

verus! {

/// Who may see a diagnostic item, ordered from least to most visible.
#[derive(Debug, Clone, Copy, PartialEq, Eq, PartialOrd, Ord, Hash, Default, Structural)]
pub enum DiagnosticVisibility {
    /// Shown only in local development.
    #[default]
    DevOnly,
    /// Shown in local and staging environments.
    Internal,
    /// Shown everywhere, including production.
    Public,
}

/// Position of a visibility level in the order `DevOnly < Internal < Public`.
pub open spec fn visibility_rank(v: DiagnosticVisibility) -> int {
    match v {
        DiagnosticVisibility::DevOnly => 0,
        DiagnosticVisibility::Internal => 1,
        DiagnosticVisibility::Public => 2,
    }
}

/// Whether an item of visibility `v` is shown at threshold `min`.
pub open spec fn at_least(v: DiagnosticVisibility, min: DiagnosticVisibility) -> bool {
    visibility_rank(v) >= visibility_rank(min)
}

impl DiagnosticVisibility {
    /// Whether `self` is at least as visible as `min`.
    pub fn is_at_least(self, min: DiagnosticVisibility) -> (r: bool)
        ensures
            r == at_least(self, min),
    {
        let a: u8 = match self {
            DiagnosticVisibility::DevOnly => 0,
            DiagnosticVisibility::Internal => 1,
            DiagnosticVisibility::Public => 2,
        };
        let b: u8 = match min {
            DiagnosticVisibility::DevOnly => 0,
            DiagnosticVisibility::Internal => 1,
            DiagnosticVisibility::Public => 2,
        };
        a >= b
    }
}

/// Contextual advice explaining why an error occurred.
#[derive(Debug, Clone, PartialEq, Eq)]
pub struct Hint {
    /// The advice.
    pub message: Cow<'static, str>,
    /// Who may see it.
    pub visibility: DiagnosticVisibility,
}

impl Hint {
    /// A hint visible only in development.
    pub fn new<M: IntoMessage>(message: M) -> (r: Hint)
        ensures
            r.message == message.message_value(),
            r.message@ == message.message_text(),
            r.visibility == DiagnosticVisibility::DevOnly,
    {
        Hint { message: message.into_message(), visibility: DiagnosticVisibility::DevOnly }
    }

    /// A hint with the given visibility.
    pub fn with_visibility<M: IntoMessage>(message: M, visibility: DiagnosticVisibility) -> (r: Hint)
        ensures
            r.message == message.message_value(),
            r.message@ == message.message_text(),
            r.visibility == visibility,
    {
        Hint { message: message.into_message(), visibility }
    }

    /// A hint visible everywhere.
    pub fn public<M: IntoMessage>(message: M) -> (r: Hint)
        ensures
            r.message == message.message_value(),
            r.message@ == message.message_text(),
            r.visibility == DiagnosticVisibility::Public,
    {
        Self::with_visibility(message, DiagnosticVisibility::Public)
    }

    /// A hint visible in local and staging environments.
    pub fn internal<M: IntoMessage>(message: M) -> (r: Hint)
        ensures
            r.message == message.message_value(),
            r.message@ == message.message_text(),
            r.visibility == DiagnosticVisibility::Internal,
    {
        Self::with_visibility(message, DiagnosticVisibility::Internal)
    }
}

/// An actionable fix, optionally with a command to run.
#[derive(Debug, Clone, PartialEq, Eq)]
pub struct Suggestion {
    /// What to do.
    pub message: Cow<'static, str>,
    /// Command or snippet that applies the fix.
    pub command: Option<Cow<'static, str>>,
    /// Who may see it.
    pub visibility: DiagnosticVisibility,
}

impl Suggestion {
    /// A suggestion without a command, visible only in development.
    pub fn new<M: IntoMessage>(message: M) -> (r: Suggestion)
        ensures
            r.message == message.message_value(),
            r.message@ == message.message_text(),
            r.command is None,
            r.visibility == DiagnosticVisibility::DevOnly,
    {
        Suggestion { message: message.into_message(), command: None, visibility: DiagnosticVisibility::DevOnly }
    }

    /// A suggestion with a command, visible only in development.
    pub fn with_command<M: IntoMessage, C: IntoMessage>(message: M, command: C) -> (r: Suggestion)
        ensures
            r.message == message.message_value(),
            r.message@ == message.message_text(),
            r.command == Some(command.message_value()),
            r.command matches Some(c) && c@ == command.message_text(),
            r.visibility == DiagnosticVisibility::DevOnly,
    {
        Suggestion {
            message: message.into_message(),
            command: Some(command.into_message()),
            visibility: DiagnosticVisibility::DevOnly,
        }
    }

    /// The same suggestion with another visibility.
    pub fn visibility(self, visibility: DiagnosticVisibility) -> (r: Suggestion)
        ensures
            r == (Suggestion { visibility, ..self }),
    {
        Suggestion { visibility, ..self }
    }
}

/// A link to documentation about the error.
#[derive(Debug, Clone, PartialEq, Eq)]
pub struct DocLink {
    /// The URL.
    pub url: Cow<'static, str>,
    /// Optional human-readable title.
    pub title: Option<Cow<'static, str>>,
    /// Who may see it.
    pub visibility: DiagnosticVisibility,
}

impl DocLink {
    /// A public link without a title.
    pub fn new<U: IntoMessage>(url: U) -> (r: DocLink)
        ensures
            r.url == url.message_value(),
            r.url@ == url.message_text(),
            r.title is None,
            r.visibility == DiagnosticVisibility::Public,
    {
        DocLink { url: url.into_message(), title: None, visibility: DiagnosticVisibility::Public }
    }

    /// A public link with a title.
    pub fn with_title<U: IntoMessage, S: IntoMessage>(url: U, title: S) -> (r: DocLink)
        ensures
            r.url == url.message_value(),
            r.url@ == url.message_text(),
            r.title == Some(title.message_value()),
            r.title matches Some(t) && t@ == title.message_text(),
            r.visibility == DiagnosticVisibility::Public,
    {
        DocLink { url: url.into_message(), title: Some(title.into_message()), visibility: DiagnosticVisibility::Public }
    }

    /// The same link with another visibility.
    pub fn visibility(self, visibility: DiagnosticVisibility) -> (r: DocLink)
        ensures
            r == (DocLink { visibility, ..self }),
    {
        DocLink { visibility, ..self }
    }
}

/// All diagnostics attached to an error.
#[derive(Debug, Clone, PartialEq, Eq)]
pub struct Diagnostics {
    /// Hints, in the order they were added.
    pub hints: InlineVec<Hint>,
    /// Suggestions, in the order they were added.
    pub suggestions: InlineVec<Suggestion>,
    /// Optional documentation link.
    pub doc_link: Option<DocLink>,
    /// Related error codes, in the order they were added.
    pub related_codes: InlineVec<Cow<'static, str>>,
}

/// The hints visible at threshold `min`, in order.
pub open spec fn visible_hint_seq(hints: Seq<Hint>, min: DiagnosticVisibility) -> Seq<Hint> {
    hints.filter(|h: Hint| at_least(h.visibility, min))
}

/// The suggestions visible at threshold `min`, in order.
pub open spec fn visible_suggestion_seq(s: Seq<Suggestion>, min: DiagnosticVisibility) -> Seq<Suggestion> {
    s.filter(|x: Suggestion| at_least(x.visibility, min))
}

impl Diagnostics {
    /// Diagnostics with nothing in them.
    pub fn new() -> (r: Diagnostics)
        ensures
            r.hints@ == Seq::<Hint>::empty(),
            r.suggestions@ == Seq::<Suggestion>::empty(),
            r.doc_link is None,
            r.related_codes@ == Seq::<Cow<'static, str>>::empty(),
    {
        Diagnostics {
            hints: InlineVec::new(),
            suggestions: InlineVec::new(),
            doc_link: None,
            related_codes: InlineVec::new(),
        }
    }

    /// Whether no hint, suggestion, link or related code is present.
    pub fn is_empty(&self) -> (r: bool)
        ensures
            r == (self.hints@.len() == 0 && self.suggestions@.len() == 0 && self.doc_link is None
                && self.related_codes@.len() == 0),
    {
        self.hints.is_empty() && self.suggestions.is_empty() && self.doc_link.is_none()
            && self.related_codes.is_empty()
    }

    /// Whether some hint, suggestion or the link is visible at `min`.
    pub fn has_visible_content(&self, min_visibility: DiagnosticVisibility) -> (r: bool)
        ensures
            r == ((exists|i: int| 0 <= i < self.hints@.len() && at_least(#[trigger] self.hints@[i].visibility, min_visibility))
                || (exists|i: int| 0 <= i < self.suggestions@.len() && at_least(#[trigger] self.suggestions@[i].visibility, min_visibility))
                || (self.doc_link matches Some(d) && at_least(d.visibility, min_visibility))),
    {
        let hints = self.hints.as_slice();
        let mut i: usize = 0;
        while i < hints.len()
            invariant
                hints@ == self.hints@,
                i <= hints@.len(),
                forall|j: int| 0 <= j < i ==> !at_least(#[trigger] hints@[j].visibility, min_visibility),
            decreases hints@.len() - i,
        {
            if hints[i].visibility.is_at_least(min_visibility) {
                return true;
            }
            i += 1;
        }
        let suggestions = self.suggestions.as_slice();
        let mut k: usize = 0;
        while k < suggestions.len()
            invariant
                suggestions@ == self.suggestions@,
                k <= suggestions@.len(),
                forall|j: int| 0 <= j < k ==> !at_least(#[trigger] suggestions@[j].visibility, min_visibility),
            decreases suggestions@.len() - k,
        {
            if suggestions[k].visibility.is_at_least(min_visibility) {
                return true;
            }
            k += 1;
        }
        match &self.doc_link {
            Some(d) => d.visibility.is_at_least(min_visibility),
            None => false,
        }
    }

    /// The hints visible at `min`, in order.
    pub fn visible_hints(&self, min_visibility: DiagnosticVisibility) -> (r: std::vec::IntoIter<&Hint>)
        ensures
            IteratorSpec::remaining(&r).unref() == visible_hint_seq(self.hints@, min_visibility),
    {
        let hints = self.hints.as_slice();
        let mut out: Vec<&Hint> = Vec::new();
        let mut i: usize = 0;
        while i < hints.len()
            invariant
                hints@ == self.hints@,
                i <= hints@.len(),
                out@.unref() == visible_hint_seq(hints@.take(i as int), min_visibility),
            decreases hints@.len() - i,
        {
            proof {
                reveal_with_fuel(Seq::filter, 1);
                assert(hints@.take(i + 1).drop_last() =~= hints@.take(i as int));
            }
            if hints[i].visibility.is_at_least(min_visibility) {
                out.push(&hints[i]);
                assert(out@.unref() =~= visible_hint_seq(hints@.take(i + 1), min_visibility));
            }
            i += 1;
        }
        assert(hints@.take(hints@.len() as int) =~= hints@);
        proof { vstd::std_specs::vec::axiom_spec_into_iter(out); }
        out.into_iter()
    }

    /// The suggestions visible at `min`, in order.
    pub fn visible_suggestions(&self, min_visibility: DiagnosticVisibility) -> (r: std::vec::IntoIter<&Suggestion>)
        ensures
            IteratorSpec::remaining(&r).unref() == visible_suggestion_seq(self.suggestions@, min_visibility),
    {
        let items = self.suggestions.as_slice();
        let mut out: Vec<&Suggestion> = Vec::new();
        let mut i: usize = 0;
        while i < items.len()
            invariant
                items@ == self.suggestions@,
                i <= items@.len(),
                out@.unref() == visible_suggestion_seq(items@.take(i as int), min_visibility),
            decreases items@.len() - i,
        {
            proof {
                reveal_with_fuel(Seq::filter, 1);
                assert(items@.take(i + 1).drop_last() =~= items@.take(i as int));
            }
            if items[i].visibility.is_at_least(min_visibility) {
                out.push(&items[i]);
                assert(out@.unref() =~= visible_suggestion_seq(items@.take(i + 1), min_visibility));
            }
            i += 1;
        }
        assert(items@.take(items@.len() as int) =~= items@);
        proof { vstd::std_specs::vec::axiom_spec_into_iter(out); }
        out.into_iter()
    }

    /// The documentation link, when it is visible at `min`.
    pub fn visible_doc_link(&self, min_visibility: DiagnosticVisibility) -> (r: Option<&DocLink>)
        ensures
            r == (match self.doc_link {
                Some(d) => if at_least(d.visibility, min_visibility) { Some(&d) } else { None },
                None => None,
            }),
    {
        match &self.doc_link {
            Some(d) => if d.visibility.is_at_least(min_visibility) { Some(d) } else { None },
            None => None,
        }
    }
}

impl Default for Diagnostics {
    fn default() -> (r: Diagnostics)
        ensures
            r.hints@ == Seq::<Hint>::empty(),
            r.suggestions@ == Seq::<Suggestion>::empty(),
            r.doc_link is None,
            r.related_codes@ == Seq::<Cow<'static, str>>::empty(),
    {
        Diagnostics::new()
    }
}

} // verus!
