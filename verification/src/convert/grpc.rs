//! What a gRPC status built from an error carries: the detail text and the
//! ASCII metadata entries.

use std::borrow::Cow;

use vstd::prelude::*;

use crate::error::{Error, MessageEditPolicy};
use crate::format::{decimal, duration_text, push_decimal, signed_decimal, u64_to_string, uuid_text, uuid_to_string};
use crate::kind::{kind_label_text, AppErrorKind};
use crate::metadata::{Field, FieldValue, FieldView, Metadata};
use crate::redaction::cow_str;
use crate::redaction_policy::FieldRedaction;
use crate::text::{owned, push_str};

verus! {

/// Characters allowed in a metadata key.
pub open spec fn is_key_char(c: char) -> bool {
    ('a' <= c <= 'z') || ('0' <= c <= '9') || c == '-' || c == '_' || c == '.'
}

/// A key that is not empty and uses only lowercase letters, digits, `-`,
/// `_` and `.`.
pub open spec fn safe_key(k: Seq<char>) -> bool {
    k.len() > 0 && forall|i: int| 0 <= i < k.len() ==> is_key_char(#[trigger] k[i])
}

/// A value made only of visible ASCII characters and spaces.
pub open spec fn ascii_value(v: Seq<char>) -> bool {
    forall|i: int| 0 <= i < v.len() ==> ' ' <= #[trigger] v[i] <= '~'
}

/// Whether a metadata key is safe to send.
pub fn is_safe_metadata_key(key: &str) -> (r: bool)
    ensures
        r == safe_key(key@),
{
    let mut any = false;
    for c in it: key.chars()
        invariant
            it.seq() == key@,
            any == (it.index() > 0),
            forall|i: int| 0 <= i < it.index() ==> is_key_char(#[trigger] key@[i]),
    {
        if !(('a' <= c && c <= 'z') || ('0' <= c && c <= '9') || c == '-' || c == '_' || c == '.') {
            return false;
        }
        any = true;
    }
    any
}

/// Whether a metadata value is visible ASCII.
pub fn is_ascii_metadata_value(value: &str) -> (r: bool)
    ensures
        r == ascii_value(value@),
{
    for c in it: value.chars()
        invariant
            it.seq() == value@,
            forall|i: int| 0 <= i < it.index() ==> ' ' <= #[trigger] value@[i] <= '~',
    {
        if !(' ' <= c && c <= '~') {
            return false;
        }
    }
    true
}

/// The detail text of the status: the kind's label when the message is to
/// be hidden or missing, else the message.
pub open spec fn detail_text(message: Option<Seq<char>>, kind: AppErrorKind, policy: MessageEditPolicy) -> Seq<char> {
    if policy == MessageEditPolicy::Redact {
        kind_label_text(kind)
    } else {
        match message {
            Some(m) => m,
            None => kind_label_text(kind),
        }
    }
}

/// The detail text of the status.
pub fn sanitize_detail(message: Option<&Cow<'static, str>>, kind: AppErrorKind, policy: MessageEditPolicy) -> (r: String)
    ensures
        r@ == detail_text(match message {
            Some(m) => Some(m@),
            None => None,
        }, kind, policy),
{
    if policy == MessageEditPolicy::Redact {
        return kind.to_string();
    }
    match message {
        Some(m) => owned(cow_str(m)),
        None => kind.to_string(),
    }
}

/// The ASCII text a metadata value is sent as, if it has one: strings that
/// are visible ASCII, integers, flags and durations.
pub open spec fn ascii_text(v: FieldValue) -> Option<Seq<char>> {
    match v {
        FieldValue::Str(s) => if ascii_value(s@) { Some(s@) } else { None },
        FieldValue::I64(n) => Some(signed_decimal(n as int)),
        FieldValue::U64(n) => Some(decimal(n as nat)),
        FieldValue::Bool(b) => Some(if b { "true"@ } else { "false"@ }),
        FieldValue::Uuid(u) => Some(uuid_text(u)),
        FieldValue::Duration { secs, nanos } => Some(duration_text(secs, nanos)),
    }
}

/// The ASCII text a metadata value is sent as, if it has one.
pub fn metadata_value_to_ascii(value: &FieldValue) -> (r: Option<String>)
    ensures
        (match r {
            Some(t) => Some(t@),
            None => None,
        }) == ascii_text(*value),
{
    match value {
        FieldValue::Str(s) => {
            let text = cow_str(s);
            if is_ascii_metadata_value(text) {
                Some(owned(text))
            } else {
                None
            }
        }
        FieldValue::I64(n) => Some(crate::format::i64_to_string(*n)),
        FieldValue::U64(n) => Some(u64_to_string(*n)),
        FieldValue::Bool(b) => Some(if *b { owned("true") } else { owned("false") }),
        FieldValue::Uuid(u) => Some(uuid_to_string(*u)),
        FieldValue::Duration { secs, nanos } => Some(crate::format::duration_parts_to_string(*secs, *nanos)),
    }
}

/// The entry sent for a key and value when both are acceptable.
pub open spec fn checked_entry(key: Seq<char>, value: Seq<char>) -> Seq<(Seq<char>, Seq<char>)> {
    if safe_key(key) && ascii_value(value) { seq![(key, value)] } else { Seq::empty() }
}

/// The entries sent for the metadata fields: public fields with a safe
/// name and an ASCII form, in name order.
pub open spec fn field_entries(fields: Seq<FieldView>) -> Seq<(Seq<char>, Seq<char>)>
    decreases fields.len(),
{
    if fields.len() == 0 {
        Seq::empty()
    } else {
        let f = fields.last();
        field_entries(fields.drop_last()) + if f.redaction == FieldRedaction::Preserve && safe_key(f.name) {
            match ascii_text(f.value) {
                Some(t) => seq![(f.name, t)],
                None => Seq::empty(),
            }
        } else {
            Seq::empty()
        }
    }
}

/// The metadata entries of the status of an error, in the order they are
/// inserted: code, HTTP status and problem type of the code's mapping,
/// retry advice, an ASCII challenge, and the public fields unless the
/// message is to be hidden.
pub open spec fn status_entries(e: Error, http_status: u16, problem_type: Seq<char>) -> Seq<(Seq<char>, Seq<char>)> {
    checked_entry("app-code"@, e.code@.1) + checked_entry("app-http-status"@, decimal(http_status as nat))
        + checked_entry("app-problem-type"@, problem_type) + match e.retry {
        Some(a) => checked_entry("retry-after"@, decimal(a.after_seconds as nat)),
        None => Seq::empty(),
    } + match e.www_authenticate {
        Some(w) => if ascii_value(w@) { checked_entry("www-authenticate"@, w@) } else { Seq::empty() },
        None => Seq::empty(),
    } + if e.edit_policy == MessageEditPolicy::Redact { Seq::empty() } else { field_entries(e.metadata@) }
}

/// Appends the entry for a key and value when both are acceptable.
fn push_checked(out: &mut Vec<(String, String)>, key: &str, value: &str)
    ensures
        final(out)@.map_values(|p: (String, String)| (p.0@, p.1@)) == old(out)@.map_values(|p: (String, String)| (p.0@, p.1@))
            + checked_entry(key@, value@),
{
    let ghost before = out@.map_values(|p: (String, String)| (p.0@, p.1@));
    if is_safe_metadata_key(key) && is_ascii_metadata_value(value) {
        out.push((owned(key), owned(value)));
        assert(out@.map_values(|p: (String, String)| (p.0@, p.1@)) =~= before + checked_entry(key@, value@));
    } else {
        assert(before + checked_entry(key@, value@) =~= before);
    }
}

/// Appends the entries of the public metadata fields.
fn push_field_entries(out: &mut Vec<(String, String)>, metadata: &Metadata)
    ensures
        final(out)@.map_values(|p: (String, String)| (p.0@, p.1@)) == old(out)@.map_values(|p: (String, String)| (p.0@, p.1@))
            + field_entries(metadata@),
{
    let fields = metadata.fields();
    let ghost view = metadata@;
    let ghost start = out@.map_values(|p: (String, String)| (p.0@, p.1@));
    let mut i: usize = 0;
    while i < fields.len()
        invariant
            fields@.map_values(|f: Field| f@) == view,
            i <= fields@.len(),
            out@.map_values(|p: (String, String)| (p.0@, p.1@)) == start + field_entries(view.take(i as int)),
        decreases fields@.len() - i,
    {
        let f = &fields[i];
        proof {
            assert(f@ == view[i as int]);
            assert(view.take(i + 1).drop_last() =~= view.take(i as int));
            assert(view.take(i + 1).last() == view[i as int]);
        }
        let ghost before = out@.map_values(|p: (String, String)| (p.0@, p.1@));
        if f.redaction() == FieldRedaction::Preserve && is_safe_metadata_key(f.name()) {
            match metadata_value_to_ascii(f.value()) {
                Some(text) => {
                    out.push((owned(f.name()), text));
                    assert(out@.map_values(|p: (String, String)| (p.0@, p.1@)) =~= before + seq![(view[i as int].name, text@)]);
                }
                None => {
                    assert(before + Seq::<(Seq<char>, Seq<char>)>::empty() =~= before);
                }
            }
        } else {
            assert(before + Seq::<(Seq<char>, Seq<char>)>::empty() =~= before);
        }
        i += 1;
        assert(out@.map_values(|p: (String, String)| (p.0@, p.1@)) =~= start + field_entries(view.take(i as int)));
    }
    assert(view.take(fields@.len() as int) =~= view);
}

/// The metadata entries of the status of an error, given the HTTP status
/// and problem type that the error's code maps to.
pub fn status_metadata(error: &Error, http_status: u16, problem_type: &str) -> (r: Vec<(String, String)>)
    ensures
        r@.map_values(|p: (String, String)| (p.0@, p.1@)) == status_entries(*error, http_status, problem_type@),
{
    let mut out: Vec<(String, String)> = Vec::new();
    let ghost start = out@.map_values(|p: (String, String)| (p.0@, p.1@));
    assert(start =~= Seq::<(Seq<char>, Seq<char>)>::empty());
    push_checked(&mut out, "app-code", error.code.as_str());
    let status_text = u64_to_string(http_status as u64);
    push_checked(&mut out, "app-http-status", status_text.as_str());
    push_checked(&mut out, "app-problem-type", problem_type);
    let ghost after_header = out@.map_values(|p: (String, String)| (p.0@, p.1@));
    match error.retry {
        Some(advice) => {
            let secs = u64_to_string(advice.after_seconds);
            push_checked(&mut out, "retry-after", secs.as_str());
        }
        None => {}
    }
    let ghost after_retry = out@.map_values(|p: (String, String)| (p.0@, p.1@));
    match &error.www_authenticate {
        Some(challenge) => {
            if is_ascii_metadata_value(challenge.as_str()) {
                push_checked(&mut out, "www-authenticate", challenge.as_str());
            }
        }
        None => {}
    }
    let ghost after_challenge = out@.map_values(|p: (String, String)| (p.0@, p.1@));
    if error.edit_policy != MessageEditPolicy::Redact {
        push_field_entries(&mut out, &error.metadata);
    }
    assert(out@.map_values(|p: (String, String)| (p.0@, p.1@)) =~= status_entries(*error, http_status, problem_type@));
    out
}

} // verus!
verus! {

/// An authentication challenge made only of visible ASCII characters and
/// spaces always reaches the status metadata, under `www-authenticate`;
/// retry advice always reaches it under `retry-after` as its decimal
/// seconds.
pub proof fn law_status_carries_challenge_and_retry(e: Error, http_status: u16, problem_type: Seq<char>)
    ensures
        (e.www_authenticate matches Some(w) && forall|i: int| 0 <= i < w@.len() ==> ' ' <= #[trigger] w@[i] <= '~')
            ==> status_entries(e, http_status, problem_type).contains(("www-authenticate"@, e.www_authenticate->0@)),
        (e.retry matches Some(a))
            ==> status_entries(e, http_status, problem_type).contains(("retry-after"@, decimal(e.retry->0.after_seconds as nat))),
{
    reveal_strlit("www-authenticate");
    reveal_strlit("retry-after");
    assert(safe_key("www-authenticate"@));
    assert(safe_key("retry-after"@));
    let head = checked_entry("app-code"@, e.code@.1) + checked_entry("app-http-status"@, decimal(http_status as nat))
        + checked_entry("app-problem-type"@, problem_type);
    let retry_part = match e.retry {
        Some(a) => checked_entry("retry-after"@, decimal(a.after_seconds as nat)),
        None => Seq::empty(),
    };
    let challenge_part = match e.www_authenticate {
        Some(w) => if ascii_value(w@) { checked_entry("www-authenticate"@, w@) } else { Seq::empty() },
        None => Seq::empty(),
    };
    let tail = if e.edit_policy == MessageEditPolicy::Redact { Seq::empty() } else { field_entries(e.metadata@) };
    let all = status_entries(e, http_status, problem_type);
    assert(all == head + retry_part + challenge_part + tail);
    if e.retry is Some {
        let a = e.retry->0;
        lemma_decimal_ascii(a.after_seconds as nat);
        assert(retry_part == seq![("retry-after"@, decimal(a.after_seconds as nat))]);
        assert(all[head.len() as int] == ("retry-after"@, decimal(a.after_seconds as nat)));
    }
    if e.www_authenticate is Some {
        let w = e.www_authenticate->0;
        if forall|i: int| 0 <= i < w@.len() ==> ' ' <= #[trigger] w@[i] <= '~' {
            assert(challenge_part == seq![("www-authenticate"@, w@)]);
            assert(all[(head.len() + retry_part.len()) as int] == ("www-authenticate"@, w@));
        }
    }
}

/// Decimal digits are visible ASCII.
proof fn lemma_decimal_ascii(n: nat)
    ensures
        ascii_value(decimal(n)),
    decreases n,
{
    if n >= 10 {
        lemma_decimal_ascii(n / 10);
    }
}

} // verus!
