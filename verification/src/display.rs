//! Environment-aware rendering of errors.
//!
//! Three layouts exist: compact JSON for production, JSON extended with the
//! cause chain for staging, and a multi-line report for local development.
//! All of them apply each metadata field's redaction policy.

use vstd::prelude::*;

use crate::code::AppCode;
use crate::diagnostics::{visible_hint_seq, visible_suggestion_seq, at_least, DiagnosticVisibility, Diagnostics, Hint, Suggestion};
use crate::error::{Error, MessageEditPolicy};
use crate::format::{decimal, duration_text, hex_char, hex_lower, mask_last4_text, push_decimal, push_signed_decimal, signed_decimal, uuid_text, uuid_to_string};
use crate::kind::{kind_debug_name, kind_label_text};
use crate::metadata::{Field, FieldValue, FieldView, Metadata};
use crate::redaction::{cow_str, hash_field_value, hash_input, mask_last4_field_value, sha256_digest, value_text, REDACTED_PLACEHOLDER};
use crate::redaction_policy::FieldRedaction;
use crate::text::{push_char, push_str, str_eq};

verus! {

/// Whether a character is a control character (general category `Cc`).
pub open spec fn is_control_char(c: char) -> bool {
    (c as u32) <= 0x1f || (0x7f <= (c as u32) && (c as u32) <= 0x9f)
}

/// Four lowercase hex digits of `n < 65536`.
pub open spec fn hex4(n: nat) -> Seq<char> {
    seq![hex_char((n / 4096) % 16), hex_char((n / 256) % 16), hex_char((n / 16) % 16), hex_char(n % 16)]
}

/// JSON escape of one character.
pub open spec fn json_escape_char(c: char) -> Seq<char> {
    if c == '"' {
        seq!['\\', '"']
    } else if c == '\\' {
        seq!['\\', '\\']
    } else if c == '\n' {
        seq!['\\', 'n']
    } else if c == '\r' {
        seq!['\\', 'r']
    } else if c == '\t' {
        seq!['\\', 't']
    } else if is_control_char(c) {
        seq!['\\', 'u'] + hex4(c as nat)
    } else {
        seq![c]
    }
}

/// JSON escape of a text, character by character.
pub open spec fn json_escape(s: Seq<char>) -> Seq<char>
    decreases s.len(),
{
    if s.len() == 0 {
        Seq::empty()
    } else {
        json_escape(s.drop_last()) + json_escape_char(s.last())
    }
}

/// Whether a character is a control character (`char::is_control`).
pub fn char_is_control(c: char) -> (r: bool)
    ensures
        r == is_control_char(c),
{
    let n = c as u32;
    n <= 0x1f || (0x7f <= n && n <= 0x9f)
}

/// Appends the JSON escape of one character.
fn push_json_escaped_char(out: &mut String, c: char)
    ensures
        final(out)@ == old(out)@ + json_escape_char(c),
{
    if c == '"' {
        push_str(out, "\\\"");
        proof { reveal_strlit("\\\""); }
    } else if c == '\\' {
        push_str(out, "\\\\");
        proof { reveal_strlit("\\\\"); }
    } else if c == '\n' {
        push_str(out, "\\n");
        proof { reveal_strlit("\\n"); }
    } else if c == '\r' {
        push_str(out, "\\r");
        proof { reveal_strlit("\\r"); }
    } else if c == '\t' {
        push_str(out, "\\t");
        proof { reveal_strlit("\\t"); }
    } else if char_is_control(c) {
        let n = c as u32;
        push_str(out, "\\u");
        proof { reveal_strlit("\\u"); }
        push_char(out, crate::format::hex_digit(((n / 4096) % 16) as u8));
        push_char(out, crate::format::hex_digit(((n / 256) % 16) as u8));
        push_char(out, crate::format::hex_digit(((n / 16) % 16) as u8));
        push_char(out, crate::format::hex_digit((n % 16) as u8));
    } else {
        push_char(out, c);
    }
    assert(final(out)@ =~= old(out)@ + json_escape_char(c));
}

/// Appends the JSON escape of a text.
pub fn push_json_escaped(out: &mut String, s: &str)
    ensures
        final(out)@ == old(out)@ + json_escape(s@),
{
    let ghost start = out@;
    for c in it: s.chars()
        invariant
            it.seq() == s@,
            out@ == start + json_escape(s@.take(it.index())),
    {
        proof {
            assert(s@.take(it.index() + 1).drop_last() =~= s@.take(it.index()));
        }
        push_json_escaped_char(out, c);
    }
    assert(s@.take(s@.len() as int) =~= s@);
}

/// Pieces joined with a separator between neighbours.
pub open spec fn join(parts: Seq<Seq<char>>, sep: Seq<char>) -> Seq<char>
    decreases parts.len(),
{
    if parts.len() == 0 {
        Seq::empty()
    } else if parts.len() == 1 {
        parts[0]
    } else {
        join(parts.drop_last(), sep) + sep + parts.last()
    }
}

/// Pieces one after the other.
pub open spec fn concat(parts: Seq<Seq<char>>) -> Seq<char>
    decreases parts.len(),
{
    if parts.len() == 0 {
        Seq::empty()
    } else {
        concat(parts.drop_last()) + parts.last()
    }
}

/// The JSON entries of the fields that remain shown, in order.
pub open spec fn json_entries(s: Seq<FieldView>) -> Seq<Seq<char>>
    decreases s.len(),
{
    if s.len() == 0 {
        Seq::empty()
    } else {
        match json_entry(s.last()) {
            Some(t) => json_entries(s.drop_last()).push(t),
            None => json_entries(s.drop_last()),
        }
    }
}

/// The local-layout lines of the fields that remain shown, in order.
pub open spec fn local_entries(s: Seq<FieldView>) -> Seq<Seq<char>>
    decreases s.len(),
{
    if s.len() == 0 {
        Seq::empty()
    } else {
        match local_entry(s.last()) {
            Some(t) => local_entries(s.drop_last()).push(t),
            None => local_entries(s.drop_last()),
        }
    }
}

/// Text of `true` or `false`.
pub open spec fn bool_text(b: bool) -> Seq<char> {
    if b { "true"@ } else { "false"@ }
}

/// JSON form of a metadata value.
pub open spec fn json_value(v: FieldValue) -> Seq<char> {
    match v {
        FieldValue::Str(s) => seq!['"'] + json_escape(s@) + seq!['"'],
        FieldValue::I64(n) => signed_decimal(n as int),
        FieldValue::U64(n) => decimal(n as nat),
        FieldValue::Bool(b) => bool_text(b),
        FieldValue::Uuid(u) => seq!['"'] + uuid_text(u) + seq!['"'],
        FieldValue::Duration { secs, nanos } => "{\"secs\":"@ + decimal(secs as nat) + ",\"nanos\":"@ + decimal(nanos as nat) + seq!['}'],
    }
}

/// Display form of a metadata value (as the local layout prints it).
pub open spec fn display_value(v: FieldValue) -> Seq<char> {
    match v {
        FieldValue::Str(s) => s@,
        FieldValue::I64(n) => signed_decimal(n as int),
        FieldValue::U64(n) => decimal(n as nat),
        FieldValue::Bool(b) => bool_text(b),
        FieldValue::Uuid(u) => uuid_text(u),
        FieldValue::Duration { secs, nanos } => duration_text(secs, nanos),
    }
}

/// The lowercase hex SHA-256 digest a hashed value renders as.
pub open spec fn hashed_text(v: FieldValue) -> Seq<char> {
    hex_lower(sha256_digest(hash_input(v)))
}

/// JSON entry `"name":value` of a field after its redaction policy, or
/// `None` when the policy leaves nothing to show.
pub open spec fn json_entry(f: FieldView) -> Option<Seq<char>> {
    let key = seq!['"'] + f.name + "\":"@;
    match f.redaction {
        FieldRedaction::Preserve => Some(key + json_value(f.value)),
        FieldRedaction::Redact => Some(key + seq!['"'] + REDACTED_PLACEHOLDER@ + seq!['"']),
        FieldRedaction::Hash => Some(key + seq!['"'] + hashed_text(f.value) + seq!['"']),
        FieldRedaction::Last4 => match value_text(f.value) {
            Some(t) => Some(key + seq!['"'] + json_escape(mask_last4_text(t)) + seq!['"']),
            None => None,
        },
    }
}

/// Line `  name: value` of the local layout after the field's redaction
/// policy, or `None` when the policy leaves nothing to show.
pub open spec fn local_entry(f: FieldView) -> Option<Seq<char>> {
    let head = "  "@ + f.name + ": "@;
    match f.redaction {
        FieldRedaction::Preserve => Some(head + display_value(f.value) + seq!['\n']),
        FieldRedaction::Redact => Some(head + REDACTED_PLACEHOLDER@ + seq!['\n']),
        FieldRedaction::Hash => Some(head + hashed_text(f.value) + seq!['\n']),
        FieldRedaction::Last4 => match value_text(f.value) {
            Some(t) => Some(head + mask_last4_text(t) + seq!['\n']),
            None => None,
        },
    }
}

/// The `,"metadata":{...}` section, absent when no field is shown.
pub open spec fn json_metadata_section(fields: Seq<FieldView>) -> Seq<char> {
    let entries = json_entries(fields);
    if entries.len() == 0 {
        Seq::empty()
    } else {
        ",\"metadata\":{"@ + join(entries, seq![',']) + seq!['}']
    }
}

/// The `Context:` block of the local layout, absent when no field is shown.
pub open spec fn local_metadata_section(fields: Seq<FieldView>) -> Seq<char> {
    let entries = local_entries(fields);
    if entries.len() == 0 {
        Seq::empty()
    } else {
        "\nContext:\n"@ + concat(entries)
    }
}

/// Appends the JSON form of a metadata value.
fn push_json_value(out: &mut String, v: &FieldValue)
    ensures
        final(out)@ == old(out)@ + json_value(*v),
{
    match v {
        FieldValue::Str(s) => {
            push_char(out, '"');
            push_json_escaped(out, cow_str(s));
            push_char(out, '"');
        }
        FieldValue::I64(n) => push_signed_decimal(out, *n),
        FieldValue::U64(n) => push_decimal(out, *n),
        FieldValue::Bool(b) => {
            if *b {
                push_str(out, "true");
            } else {
                push_str(out, "false");
            }
        }
        FieldValue::Uuid(u) => {
            let text = uuid_to_string(*u);
            push_char(out, '"');
            push_str(out, text.as_str());
            push_char(out, '"');
        }
        FieldValue::Duration { secs, nanos } => {
            push_str(out, "{\"secs\":");
            push_decimal(out, *secs);
            push_str(out, ",\"nanos\":");
            push_decimal(out, *nanos as u64);
            push_char(out, '}');
        }
    }
    assert(final(out)@ =~= old(out)@ + json_value(*v));
}

/// Appends the display form of a metadata value.
fn push_display_value(out: &mut String, v: &FieldValue)
    ensures
        final(out)@ == old(out)@ + display_value(*v),
{
    match v {
        FieldValue::Str(s) => push_str(out, cow_str(s)),
        FieldValue::I64(n) => push_signed_decimal(out, *n),
        FieldValue::U64(n) => push_decimal(out, *n),
        FieldValue::Bool(b) => {
            if *b {
                push_str(out, "true");
            } else {
                push_str(out, "false");
            }
        }
        FieldValue::Uuid(u) => {
            let text = uuid_to_string(*u);
            push_str(out, text.as_str());
        }
        FieldValue::Duration { secs, nanos } => {
            let text = crate::format::duration_parts_to_string(*secs, *nanos);
            push_str(out, text.as_str());
        }
    }
}

/// The JSON entry of a field, or `None` when its policy hides it entirely.
fn json_entry_text(f: &Field) -> (r: Option<String>)
    ensures
        r is Some <==> json_entry(f@) is Some,
        r matches Some(t) ==> t@ == json_entry(f@).unwrap(),
{
    let mut out = String::new();
    let redaction = f.redaction();
    let value = f.value();
    let masked = match redaction {
        FieldRedaction::Last4 => match mask_last4_field_value(value) {
            Some(m) => Some(m),
            None => {
                return None;
            }
        },
        _ => None,
    };
    push_char(&mut out, '"');
    push_str(&mut out, f.name());
    push_str(&mut out, "\":");
    match redaction {
        FieldRedaction::Preserve => push_json_value(&mut out, value),
        FieldRedaction::Redact => {
            push_char(&mut out, '"');
            push_str(&mut out, REDACTED_PLACEHOLDER);
            push_char(&mut out, '"');
        }
        FieldRedaction::Hash => {
            push_char(&mut out, '"');
            let digest = hash_field_value(value);
            push_str(&mut out, digest.as_str());
            push_char(&mut out, '"');
        }
        FieldRedaction::Last4 => {
            push_char(&mut out, '"');
            match &masked {
                Some(m) => push_json_escaped(&mut out, m.as_str()),
                None => {}
            }
            push_char(&mut out, '"');
        }
    }
    assert(out@ =~= json_entry(f@).unwrap());
    Some(out)
}

/// The local-layout line of a field, or `None` when its policy hides it
/// entirely.
fn local_entry_text(f: &Field) -> (r: Option<String>)
    ensures
        r is Some <==> local_entry(f@) is Some,
        r matches Some(t) ==> t@ == local_entry(f@).unwrap(),
{
    let mut out = String::new();
    let redaction = f.redaction();
    let value = f.value();
    let masked = match redaction {
        FieldRedaction::Last4 => match mask_last4_field_value(value) {
            Some(m) => Some(m),
            None => {
                return None;
            }
        },
        _ => None,
    };
    push_str(&mut out, "  ");
    push_str(&mut out, f.name());
    push_str(&mut out, ": ");
    match redaction {
        FieldRedaction::Preserve => push_display_value(&mut out, value),
        FieldRedaction::Redact => push_str(&mut out, REDACTED_PLACEHOLDER),
        FieldRedaction::Hash => {
            let digest = hash_field_value(value);
            push_str(&mut out, digest.as_str());
        }
        FieldRedaction::Last4 => match &masked {
            Some(m) => push_str(&mut out, m.as_str()),
            None => {}
        },
    }
    push_char(&mut out, '\n');
    assert(out@ =~= local_entry(f@).unwrap());
    Some(out)
}

/// Extending the fields by one adds that field's entry, when it has one.
proof fn lemma_entries_step(view: Seq<FieldView>, i: int)
    requires
        0 <= i < view.len(),
    ensures
        json_entries(view.take(i + 1)) == (match json_entry(view[i]) {
            Some(t) => json_entries(view.take(i)).push(t),
            None => json_entries(view.take(i)),
        }),
        local_entries(view.take(i + 1)) == (match local_entry(view[i]) {
            Some(t) => local_entries(view.take(i)).push(t),
            None => local_entries(view.take(i)),
        }),
{
    assert(view.take(i + 1).drop_last() =~= view.take(i));
}

/// Joining one more piece appends the separator and the piece.
proof fn lemma_join_push(parts: Seq<Seq<char>>, sep: Seq<char>, x: Seq<char>)
    requires
        parts.len() > 0,
    ensures
        join(parts.push(x), sep) == join(parts, sep) + sep + x,
{
    assert(parts.push(x).drop_last() =~= parts);
}

/// Concatenating one more piece appends it.
proof fn lemma_concat_push(parts: Seq<Seq<char>>, x: Seq<char>)
    ensures
        concat(parts.push(x)) == concat(parts) + x,
{
    assert(parts.push(x).drop_last() =~= parts);
}

/// Appends the `,"metadata":{...}` section of the metadata.
pub fn push_json_metadata_section(out: &mut String, metadata: &Metadata)
    ensures
        final(out)@ == old(out)@ + json_metadata_section(metadata@),
{
    let fields = metadata.fields();
    let ghost view = metadata@;
    let ghost start = out@;
    let mut wrote_any = false;
    let mut i: usize = 0;
    while i < fields.len()
        invariant
            fields@.map_values(|f: Field| f@) == view,
            i <= fields@.len(),
            wrote_any == (json_entries(view.take(i as int)).len() > 0),
            wrote_any ==> out@ == start + ",\"metadata\":{"@ + join(json_entries(view.take(i as int)), seq![',']),
            !wrote_any ==> out@ == start,
        decreases fields@.len() - i,
    {
        let f = &fields[i];
        proof {
            assert(f@ == view[i as int]);
            lemma_entries_step(view, i as int);
        }
        match json_entry_text(f) {
            Some(entry) => {
                if wrote_any {
                    proof { lemma_join_push(json_entries(view.take(i as int)), seq![','], entry@); }
                    push_char(out, ',');
                } else {
                    push_str(out, ",\"metadata\":{");
                    proof {
                        assert(json_entries(view.take(i as int)).push(entry@) =~= seq![entry@]);
                    }
                }
                push_str(out, entry.as_str());
                wrote_any = true;
            }
            None => {}
        }
        i += 1;
        proof {
            if wrote_any {
                assert(out@ =~= start + ",\"metadata\":{"@ + join(json_entries(view.take(i as int)), seq![',']));
            }
        }
    }
    proof { assert(view.take(fields@.len() as int) =~= view); }
    if wrote_any {
        push_char(out, '}');
    }
    assert(out@ =~= start + json_metadata_section(view));
}

/// Appends the `Context:` block of the metadata.
pub fn push_local_metadata_section(out: &mut String, metadata: &Metadata)
    ensures
        final(out)@ == old(out)@ + local_metadata_section(metadata@),
{
    let fields = metadata.fields();
    let ghost view = metadata@;
    let ghost start = out@;
    let mut wrote_header = false;
    let mut i: usize = 0;
    while i < fields.len()
        invariant
            fields@.map_values(|f: Field| f@) == view,
            i <= fields@.len(),
            wrote_header == (local_entries(view.take(i as int)).len() > 0),
            wrote_header ==> out@ == start + "\nContext:\n"@ + concat(local_entries(view.take(i as int))),
            !wrote_header ==> out@ == start,
        decreases fields@.len() - i,
    {
        let f = &fields[i];
        proof {
            assert(f@ == view[i as int]);
            lemma_entries_step(view, i as int);
        }
        match local_entry_text(f) {
            Some(line) => {
                proof { lemma_concat_push(local_entries(view.take(i as int)), line@); }
                if !wrote_header {
                    push_str(out, "\nContext:\n");
                    proof {
                        assert(local_entries(view.take(i as int)) =~= Seq::<Seq<char>>::empty());
                    }
                }
                push_str(out, line.as_str());
                wrote_header = true;
            }
            None => {}
        }
        i += 1;
        proof {
            if wrote_header {
                assert(out@ =~= start + "\nContext:\n"@ + concat(local_entries(view.take(i as int))));
            }
        }
    }
    proof { assert(view.take(fields@.len() as int) =~= view); }
    assert(out@ =~= start + local_metadata_section(view));
}

/// At most `n` leading elements.
pub open spec fn first_n<A>(s: Seq<A>, n: nat) -> Seq<A> {
    if s.len() <= n { s } else { s.take(n as int) }
}

/// The quoted, escaped JSON string of each cause message.
pub open spec fn quoted_messages(chain: Seq<String>) -> Seq<Seq<char>> {
    chain.map_values(|s: String| seq!['"'] + json_escape(s@) + seq!['"'])
}

/// The `Caused by` line of each cause message.
pub open spec fn caused_by_lines(chain: Seq<String>) -> Seq<Seq<char>> {
    chain.map_values(|s: String| "  Caused by: "@ + s@ + seq!['\n'])
}

/// Deepest cause level shown by the staging layout.
pub const STAGING_CHAIN_DEPTH: usize = 5;

/// Deepest cause level shown by the local layout.
pub const LOCAL_CHAIN_DEPTH: usize = 10;

/// The `,"source_chain":[...]` section (first five causes), absent without
/// a cause.
pub open spec fn json_source_chain(chain: Seq<String>) -> Seq<char> {
    if chain.len() == 0 {
        Seq::empty()
    } else {
        ",\"source_chain\":["@ + join(quoted_messages(first_n(chain, 5)), seq![',']) + seq![']']
    }
}

/// The cause block of the local layout (first ten causes), absent without a
/// cause.
pub open spec fn local_source_chain(chain: Seq<String>) -> Seq<char> {
    if chain.len() == 0 {
        Seq::empty()
    } else {
        seq!['\n'] + concat(caused_by_lines(first_n(chain, 10)))
    }
}

/// Appends the `,"source_chain":[...]` section.
fn push_json_source_chain(out: &mut String, chain: &Vec<String>)
    ensures
        final(out)@ == old(out)@ + json_source_chain(chain@),
{
    if chain.len() == 0 {
        return;
    }
    let ghost start = out@;
    let n = if chain.len() < STAGING_CHAIN_DEPTH { chain.len() } else { STAGING_CHAIN_DEPTH };
    let ghost shown = first_n(chain@, 5);
    assert(shown.len() == n);
    push_str(out, ",\"source_chain\":[");
    let mut i: usize = 0;
    while i < n
        invariant
            n == shown.len(),
            n <= chain@.len(),
            shown == first_n(chain@, 5),
            i <= n,
            out@ == start + ",\"source_chain\":["@ + join(quoted_messages(shown.take(i as int)), seq![',']),
        decreases n - i,
    {
        let ghost before = quoted_messages(shown.take(i as int));
        proof {
            assert(quoted_messages(shown.take(i + 1)) =~= before.push(seq!['"'] + json_escape(shown[i as int]@) + seq!['"']));
            assert(shown[i as int] == chain@[i as int]);
        }
        if i > 0 {
            proof { lemma_join_push(before, seq![','], seq!['"'] + json_escape(shown[i as int]@) + seq!['"']); }
            push_char(out, ',');
        } else {
            assert(before =~= Seq::<Seq<char>>::empty());
        }
        push_char(out, '"');
        push_json_escaped(out, chain[i].as_str());
        push_char(out, '"');
        i += 1;
        assert(out@ =~= start + ",\"source_chain\":["@ + join(quoted_messages(shown.take(i as int)), seq![',']));
    }
    assert(shown.take(n as int) =~= shown);
    push_char(out, ']');
    assert(out@ =~= start + json_source_chain(chain@));
}

/// Appends the cause block of the local layout.
fn push_local_source_chain(out: &mut String, chain: &Vec<String>)
    ensures
        final(out)@ == old(out)@ + local_source_chain(chain@),
{
    if chain.len() == 0 {
        return;
    }
    let ghost start = out@;
    let n = if chain.len() < LOCAL_CHAIN_DEPTH { chain.len() } else { LOCAL_CHAIN_DEPTH };
    let ghost shown = first_n(chain@, 10);
    assert(shown.len() == n);
    push_char(out, '\n');
    let mut i: usize = 0;
    while i < n
        invariant
            n == shown.len(),
            n <= chain@.len(),
            shown == first_n(chain@, 10),
            i <= n,
            out@ == start + seq!['\n'] + concat(caused_by_lines(shown.take(i as int))),
        decreases n - i,
    {
        let ghost before = caused_by_lines(shown.take(i as int));
        let ghost line = "  Caused by: "@ + shown[i as int]@ + seq!['\n'];
        proof {
            assert(caused_by_lines(shown.take(i + 1)) =~= before.push(line));
            lemma_concat_push(before, line);
            assert(shown[i as int] == chain@[i as int]);
        }
        push_str(out, "  Caused by: ");
        push_str(out, chain[i].as_str());
        push_char(out, '\n');
        i += 1;
        assert(out@ =~= start + seq!['\n'] + concat(caused_by_lines(shown.take(i as int))));
    }
    assert(shown.take(n as int) =~= shown);
    assert(out@ =~= start + local_source_chain(chain@));
}

/// Whether the message is shown: present and not marked for redaction.
pub open spec fn shown_message(e: Error) -> Option<Seq<char>> {
    if e.edit_policy == MessageEditPolicy::Redact {
        None
    } else {
        match e.message {
            Some(m) => Some(m@),
            None => None,
        }
    }
}

/// `{"kind":"<variant>","code":"<code>"` followed by the escaped message
/// when it is shown.
pub open spec fn json_header(e: Error) -> Seq<char> {
    "{\"kind\":\""@ + kind_debug_name(e.kind) + "\",\"code\":\""@ + e.code@.1 + seq!['"'] + match shown_message(e) {
        Some(m) => ",\"message\":\""@ + json_escape(m) + seq!['"'],
        None => Seq::empty(),
    }
}

/// The production layout: compact JSON with kind, code, shown message and
/// redacted metadata.
pub open spec fn prod_text(e: Error) -> Seq<char> {
    json_header(e) + json_metadata_section(e.metadata@) + seq!['}']
}

/// The staging layout: the production layout plus the first five causes.
pub open spec fn staging_text(e: Error) -> Seq<char> {
    json_header(e) + json_source_chain(e.source_chain@) + json_metadata_section(e.metadata@) + seq!['}']
}

/// The local layout: a multi-line report with label, code, shown message,
/// the first ten causes and the redacted metadata.
pub open spec fn local_text(e: Error) -> Seq<char> {
    "Error: "@ + kind_label_text(e.kind) + seq!['\n'] + "Code: "@ + e.code@.1 + seq!['\n'] + match shown_message(e) {
        Some(m) => "Message: "@ + m + seq!['\n'],
        None => Seq::empty(),
    } + local_source_chain(e.source_chain@) + local_metadata_section(e.metadata@)
}

/// Deployment environment selecting the layout errors render with.
#[derive(Debug, Clone, Copy, PartialEq, Eq, Structural)]
pub enum DisplayMode {
    /// Production: compact JSON without the cause chain.
    Prod,
    /// Local development: multi-line human-readable report.
    Local,
    /// Staging: compact JSON extended with the cause chain.
    Staging,
}

/// The text of an error in a layout.
pub open spec fn rendered(e: Error, mode: DisplayMode) -> Seq<char> {
    match mode {
        DisplayMode::Prod => prod_text(e),
        DisplayMode::Local => local_text(e),
        DisplayMode::Staging => staging_text(e),
    }
}

/// Appends the JSON header of an error.
fn push_json_header(out: &mut String, e: &Error)
    ensures
        final(out)@ == old(out)@ + json_header(*e),
{
    let ghost start = out@;
    push_str(out, "{\"kind\":\"");
    push_str(out, e.kind.debug_name());
    push_str(out, "\",\"code\":\"");
    push_str(out, e.code.as_str());
    push_char(out, '"');
    match e.edit_policy {
        MessageEditPolicy::Redact => {}
        MessageEditPolicy::Preserve => match &e.message {
            Some(m) => {
                push_str(out, ",\"message\":\"");
                push_json_escaped(out, cow_str(m));
                push_char(out, '"');
            }
            None => {}
        },
    }
    assert(out@ =~= start + json_header(*e));
}

impl Error {
    /// Renders the production layout: `{"kind":..,"code":..}` with the
    /// message unless it is marked for redaction, and the metadata after
    /// each field's redaction policy.
    pub fn fmt_prod(&self) -> (r: String)
        ensures
            r@ == prod_text(*self),
    {
        let mut out = String::new();
        push_json_header(&mut out, self);
        push_json_metadata_section(&mut out, &self.metadata);
        push_char(&mut out, '}');
        assert(out@ =~= prod_text(*self));
        out
    }

    /// Renders the staging layout: the production layout with the first
    /// five cause messages under `source_chain`.
    pub fn fmt_staging(&self) -> (r: String)
        ensures
            r@ == staging_text(*self),
    {
        let mut out = String::new();
        push_json_header(&mut out, self);
        push_json_source_chain(&mut out, &self.source_chain);
        push_json_metadata_section(&mut out, &self.metadata);
        push_char(&mut out, '}');
        assert(out@ =~= staging_text(*self));
        out
    }

    /// Renders the local layout: label, code and message lines, the first
    /// ten causes and a `Context:` block of metadata.
    pub fn fmt_local(&self) -> (r: String)
        ensures
            r@ == local_text(*self),
    {
        let mut out = String::new();
        push_str(&mut out, "Error: ");
        push_str(&mut out, self.kind.label());
        push_char(&mut out, '\n');
        push_str(&mut out, "Code: ");
        push_str(&mut out, self.code.as_str());
        push_char(&mut out, '\n');
        match self.edit_policy {
            MessageEditPolicy::Redact => {}
            MessageEditPolicy::Preserve => match &self.message {
                Some(m) => {
                    push_str(&mut out, "Message: ");
                    push_str(&mut out, cow_str(m));
                    push_char(&mut out, '\n');
                }
                None => {}
            },
        }
        push_local_source_chain(&mut out, &self.source_chain);
        push_local_metadata_section(&mut out, &self.metadata);
        assert(out@ =~= local_text(*self));
        out
    }

    /// Renders the layout of a display mode.
    pub fn render(&self, mode: DisplayMode) -> (r: String)
        ensures
            r@ == rendered(*self, mode),
    {
        match mode {
            DisplayMode::Prod => self.fmt_prod(),
            DisplayMode::Local => self.fmt_local(),
            DisplayMode::Staging => self.fmt_staging(),
        }
    }
}

/// Value of the mode cache while no mode has been detected yet.
pub const MODE_CACHE_UNSET: u8 = 255;

/// Number under which a mode is cached.
pub open spec fn mode_code(m: DisplayMode) -> u8 {
    match m {
        DisplayMode::Prod => 0,
        DisplayMode::Local => 1,
        DisplayMode::Staging => 2,
    }
}

/// Mode read back from a cached number: `0` is production, `2` staging,
/// anything else local.
pub open spec fn mode_from_code(v: u8) -> DisplayMode {
    if v == 0 {
        DisplayMode::Prod
    } else if v == 2 {
        DisplayMode::Staging
    } else {
        DisplayMode::Local
    }
}

/// Mode named by a `MASTERROR_ENV` value, if it names one.
pub open spec fn env_mode(v: Seq<char>) -> Option<DisplayMode> {
    if v == "prod"@ || v == "production"@ {
        Some(DisplayMode::Prod)
    } else if v == "local"@ || v == "dev"@ || v == "development"@ {
        Some(DisplayMode::Local)
    } else if v == "staging"@ || v == "stage"@ {
        Some(DisplayMode::Staging)
    } else {
        None
    }
}

/// Mode implied by the build: local for debug builds, production otherwise.
pub open spec fn auto_mode(debug_build: bool) -> DisplayMode {
    if debug_build { DisplayMode::Local } else { DisplayMode::Prod }
}

/// What the process environment tells about the deployment.
#[derive(Debug, Clone, PartialEq, Eq)]
pub struct Environment {
    /// Value of `MASTERROR_ENV`, when set.
    pub masterror_env: Option<String>,
    /// Whether `KUBERNETES_SERVICE_HOST` is set.
    pub kubernetes_service_host: bool,
    /// Whether the build has debug assertions.
    pub debug_build: bool,
}

/// The mode the environment selects: `MASTERROR_ENV` when set (falling back
/// to the build when it names no mode), else production inside Kubernetes,
/// else the build's mode.
pub open spec fn detected_mode(env: Environment) -> DisplayMode {
    match env.masterror_env {
        Some(v) => match env_mode(v@) {
            Some(m) => m,
            None => auto_mode(env.debug_build),
        },
        None => if env.kubernetes_service_host { DisplayMode::Prod } else { auto_mode(env.debug_build) },
    }
}

/// Cache and override consulted by [`DisplayMode::current`].
#[derive(Debug, Clone, Copy, PartialEq, Eq, Structural)]
pub struct DisplayModeState {
    /// Cached mode number, or [`MODE_CACHE_UNSET`].
    pub cached: u8,
    /// Mode forced regardless of the cache and the environment.
    pub forced: Option<DisplayMode>,
}

/// One call of [`DisplayMode::current`]: the mode it returns and the state
/// it leaves.
pub open spec fn mode_step(s: DisplayModeState, env: Environment) -> (DisplayMode, DisplayModeState) {
    match s.forced {
        Some(m) => (m, s),
        None => if s.cached != MODE_CACHE_UNSET {
            (mode_from_code(s.cached), s)
        } else {
            let m = detected_mode(env);
            (m, DisplayModeState { cached: mode_code(m), forced: None })
        },
    }
}

impl DisplayModeState {
    /// Nothing cached, nothing forced.
    pub fn new() -> (r: DisplayModeState)
        ensures
            r == (DisplayModeState { cached: MODE_CACHE_UNSET, forced: None }),
    {
        DisplayModeState { cached: MODE_CACHE_UNSET, forced: None }
    }

    /// Forces a mode (or stops forcing with `None`) and clears the cache.
    pub fn set_override(&mut self, mode: Option<DisplayMode>)
        ensures
            *final(self) == (DisplayModeState { cached: MODE_CACHE_UNSET, forced: mode }),
    {
        self.forced = mode;
        self.cached = MODE_CACHE_UNSET;
    }

    /// Clears both the cache and the forced mode.
    pub fn reset(&mut self)
        ensures
            *final(self) == (DisplayModeState { cached: MODE_CACHE_UNSET, forced: None }),
    {
        self.forced = None;
        self.cached = MODE_CACHE_UNSET;
    }
}

impl DisplayMode {
    /// Number under which the mode is cached.
    pub fn as_u8(self) -> (r: u8)
        ensures
            r == mode_code(self),
    {
        match self {
            DisplayMode::Prod => 0,
            DisplayMode::Local => 1,
            DisplayMode::Staging => 2,
        }
    }

    /// Mode read back from a cached number.
    pub fn from_discriminant(value: u8) -> (r: DisplayMode)
        ensures
            r == mode_from_code(value),
    {
        if value == 0 {
            DisplayMode::Prod
        } else if value == 2 {
            DisplayMode::Staging
        } else {
            DisplayMode::Local
        }
    }

    /// Mode named by a `MASTERROR_ENV` value.
    pub fn from_env_value(value: &str) -> (r: Option<DisplayMode>)
        ensures
            r == env_mode(value@),
    {
        if str_eq(value, "prod") || str_eq(value, "production") {
            Some(DisplayMode::Prod)
        } else if str_eq(value, "local") || str_eq(value, "dev") || str_eq(value, "development") {
            Some(DisplayMode::Local)
        } else if str_eq(value, "staging") || str_eq(value, "stage") {
            Some(DisplayMode::Staging)
        } else {
            None
        }
    }

    /// Mode implied by the build.
    pub fn detect_auto(debug_build: bool) -> (r: DisplayMode)
        ensures
            r == auto_mode(debug_build),
    {
        if debug_build {
            DisplayMode::Local
        } else {
            DisplayMode::Prod
        }
    }

    /// Mode the environment selects.
    pub fn detect(env: &Environment) -> (r: DisplayMode)
        ensures
            r == detected_mode(*env),
    {
        match &env.masterror_env {
            Some(v) => match Self::from_env_value(v.as_str()) {
                Some(m) => m,
                None => Self::detect_auto(env.debug_build),
            },
            None => {
                if env.kubernetes_service_host {
                    DisplayMode::Prod
                } else {
                    Self::detect_auto(env.debug_build)
                }
            }
        }
    }

    /// The current mode: the forced one if any, else the cached one, else
    /// the detected one, which is then cached.
    pub fn current(state: &mut DisplayModeState, env: &Environment) -> (r: DisplayMode)
        ensures
            (r, *final(state)) == mode_step(*old(state), *env),
    {
        if let Some(m) = state.forced {
            return m;
        }
        if state.cached != MODE_CACHE_UNSET {
            return Self::from_discriminant(state.cached);
        }
        let m = Self::detect(env);
        state.cached = m.as_u8();
        m
    }
}

/// Once a mode is returned without a forced mode, every later call returns
/// the same mode, whatever the environment says by then.
pub proof fn law_current_mode_is_cached(s: DisplayModeState, first_env: Environment, later_env: Environment)
    requires
        s.forced is None,
    ensures
        mode_step(mode_step(s, first_env).1, later_env).0 == mode_step(s, first_env).0,
        mode_step(mode_step(s, first_env).1, later_env).1 == mode_step(s, first_env).1,
{
}

/// A forced mode is returned whatever is cached and whatever the
/// environment says, and leaves the state unchanged.
pub proof fn law_forced_mode_wins(s: DisplayModeState, env: Environment, mode: DisplayMode)
    requires
        s.forced == Some(mode),
    ensures
        mode_step(s, env) == (mode, s),
{
}

/// A message marked for redaction never reaches any layout: the output is
/// the one of the same error without a message.
pub proof fn law_redacted_message_not_rendered(e: Error, mode: DisplayMode)
    requires
        e.edit_policy == MessageEditPolicy::Redact,
    ensures
        rendered(e, mode) == rendered(Error { message: None, ..e }, mode),
{
}

/// The production layout never shows the causes: errors that differ only
/// in their cause chains render alike there.
pub proof fn law_prod_hides_sources(e: Error, chain: Vec<String>)
    ensures
        rendered(Error { source_chain: chain, ..e }, DisplayMode::Prod) == rendered(e, DisplayMode::Prod),
{
}

/// Two field sequences that differ at most in the values of fields whose
/// policy is `Redact`.
pub open spec fn differ_in_redacted_values(a: Seq<FieldView>, b: Seq<FieldView>) -> bool {
    &&& a.len() == b.len()
    &&& forall|i: int| 0 <= i < a.len() ==> {
        &&& (#[trigger] a[i]).name == b[i].name
        &&& a[i].redaction == b[i].redaction
        &&& (a[i].redaction != FieldRedaction::Redact ==> a[i].value == b[i].value)
    }
}

/// Values of fields redacted with `Redact` do not influence the metadata
/// sections of any layout.
pub proof fn law_redacted_values_not_rendered(a: Seq<FieldView>, b: Seq<FieldView>)
    requires
        differ_in_redacted_values(a, b),
    ensures
        json_metadata_section(a) == json_metadata_section(b),
        local_metadata_section(a) == local_metadata_section(b),
{
    lemma_redacted_entries(a, b);
}

/// The entry lists of sequences that differ only in redacted values agree.
proof fn lemma_redacted_entries(a: Seq<FieldView>, b: Seq<FieldView>)
    requires
        differ_in_redacted_values(a, b),
    ensures
        json_entries(a) == json_entries(b),
        local_entries(a) == local_entries(b),
    decreases a.len(),
{
    if a.len() > 0 {
        let n = a.len() - 1;
        assert(a.last() == a[n as int]);
        assert(b.last() == b[n as int]);
        assert(differ_in_redacted_values(a.drop_last(), b.drop_last())) by {
            assert forall|i: int| 0 <= i < a.drop_last().len() implies {
                &&& (#[trigger] a.drop_last()[i]).name == b.drop_last()[i].name
                &&& a.drop_last()[i].redaction == b.drop_last()[i].redaction
                &&& (a.drop_last()[i].redaction != FieldRedaction::Redact ==> a.drop_last()[i].value == b.drop_last()[i].value)
            } by {
                assert(a.drop_last()[i] == a[i]);
                assert(b.drop_last()[i] == b[i]);
            }
        }
        lemma_redacted_entries(a.drop_last(), b.drop_last());
        assert(json_entry(a.last()) == json_entry(b.last()));
        assert(local_entry(a.last()) == local_entry(b.last()));
    }
}

/// The `hint:` line of a hint.
pub open spec fn hint_line(h: Hint) -> Seq<char> {
    "  hint: "@ + h.message@ + seq!['\n']
}

/// The `suggestion:` block of a suggestion, with its command on a line of
/// its own when there is one.
pub open spec fn suggestion_block(x: Suggestion) -> Seq<char> {
    seq!['\n'] + "  suggestion: "@ + x.message@ + match x.command {
        Some(c) => seq!['\n'] + "              "@ + c@ + seq!['\n'],
        None => seq!['\n'],
    }
}

/// The text of the diagnostics visible at `min` in the local layout:
/// hints, suggestions, the documentation link and related codes.
pub open spec fn diagnostics_text(d: Diagnostics, min: DiagnosticVisibility) -> Seq<char> {
    let hints = visible_hint_seq(d.hints@, min);
    let suggestions = visible_suggestion_seq(d.suggestions@, min);
    (if hints.len() == 0 {
        Seq::empty()
    } else {
        seq!['\n'] + concat(hints.map_values(|h: Hint| hint_line(h)))
    }) + concat(suggestions.map_values(|x: Suggestion| suggestion_block(x))) + (match d.doc_link {
        Some(doc) => if at_least(doc.visibility, min) {
            seq!['\n'] + match doc.title {
                Some(t) => "  docs: "@ + t@ + " ("@ + doc.url@ + seq![')'] + seq!['\n'],
                None => "  docs: "@ + doc.url@ + seq!['\n'],
            }
        } else {
            Seq::empty()
        },
        None => Seq::empty(),
    }) + (if d.related_codes@.len() == 0 {
        Seq::empty()
    } else {
        seq!['\n'] + "  see also: "@ + join(d.related_codes@.map_values(|c: std::borrow::Cow<'static, str>| c@), ", "@) + seq!['\n']
    })
}

/// Appends the hint lines visible at `min`.
fn push_hints(out: &mut String, d: &Diagnostics, min: DiagnosticVisibility)
    ensures
        final(out)@ == old(out)@ + (if visible_hint_seq(d.hints@, min).len() == 0 {
            Seq::empty()
        } else {
            seq!['\n'] + concat(visible_hint_seq(d.hints@, min).map_values(|h: Hint| hint_line(h)))
        }),
{
    let hints = d.hints.as_slice();
    let ghost start = out@;
    let mut any = false;
    let mut i: usize = 0;
    while i < hints.len()
        invariant
            hints@ == d.hints@,
            i <= hints@.len(),
            any == (visible_hint_seq(hints@.take(i as int), min).len() > 0),
            any ==> out@ == start + seq!['\n'] + concat(visible_hint_seq(hints@.take(i as int), min).map_values(|h: Hint| hint_line(h))),
            !any ==> out@ == start,
        decreases hints@.len() - i,
    {
        let ghost before = visible_hint_seq(hints@.take(i as int), min);
        proof {
            reveal_with_fuel(Seq::filter, 1);
            assert(hints@.take(i + 1).drop_last() =~= hints@.take(i as int));
            assert(hints@.take(i + 1).last() == hints@[i as int]);
        }
        if hints[i].visibility.is_at_least(min) {
            let ghost after = before.push(hints@[i as int]);
            assert(visible_hint_seq(hints@.take(i + 1), min) == after);
            proof {
                assert(after.map_values(|h: Hint| hint_line(h)) =~= before.map_values(|h: Hint| hint_line(h)).push(hint_line(hints@[i as int])));
                lemma_concat_push(before.map_values(|h: Hint| hint_line(h)), hint_line(hints@[i as int]));
            }
            if !any {
                push_char(out, '\n');
                assert(before.map_values(|h: Hint| hint_line(h)) =~= Seq::<Seq<char>>::empty());
            }
            push_str(out, "  hint: ");
            push_str(out, cow_str(&hints[i].message));
            push_char(out, '\n');
            any = true;
        }
        i += 1;
        proof {
            if any {
                assert(out@ =~= start + seq!['\n'] + concat(visible_hint_seq(hints@.take(i as int), min).map_values(|h: Hint| hint_line(h))));
            }
        }
    }
    assert(hints@.take(hints@.len() as int) =~= hints@);
}

/// Appends the suggestion blocks visible at `min`.
fn push_suggestions(out: &mut String, d: &Diagnostics, min: DiagnosticVisibility)
    ensures
        final(out)@ == old(out)@ + concat(visible_suggestion_seq(d.suggestions@, min).map_values(|x: Suggestion| suggestion_block(x))),
{
    let items = d.suggestions.as_slice();
    let ghost start = out@;
    let mut i: usize = 0;
    while i < items.len()
        invariant
            items@ == d.suggestions@,
            i <= items@.len(),
            out@ == start + concat(visible_suggestion_seq(items@.take(i as int), min).map_values(|x: Suggestion| suggestion_block(x))),
        decreases items@.len() - i,
    {
        let ghost before = visible_suggestion_seq(items@.take(i as int), min);
        proof {
            reveal_with_fuel(Seq::filter, 1);
            assert(items@.take(i + 1).drop_last() =~= items@.take(i as int));
            assert(items@.take(i + 1).last() == items@[i as int]);
        }
        if items[i].visibility.is_at_least(min) {
            let ghost after = before.push(items@[i as int]);
            assert(visible_suggestion_seq(items@.take(i + 1), min) == after);
            proof {
                assert(after.map_values(|x: Suggestion| suggestion_block(x)) =~= before.map_values(|x: Suggestion| suggestion_block(x)).push(suggestion_block(items@[i as int])));
                lemma_concat_push(before.map_values(|x: Suggestion| suggestion_block(x)), suggestion_block(items@[i as int]));
            }
            let x = &items[i];
            push_char(out, '\n');
            push_str(out, "  suggestion: ");
            push_str(out, cow_str(&x.message));
            match &x.command {
                Some(c) => {
                    push_char(out, '\n');
                    push_str(out, "              ");
                    push_str(out, cow_str(c));
                    push_char(out, '\n');
                }
                None => {
                    push_char(out, '\n');
                }
            }
        }
        i += 1;
        assert(out@ =~= start + concat(visible_suggestion_seq(items@.take(i as int), min).map_values(|x: Suggestion| suggestion_block(x))));
    }
    assert(items@.take(items@.len() as int) =~= items@);
}

/// Appends the related codes line.
fn push_related_codes(out: &mut String, d: &Diagnostics)
    ensures
        final(out)@ == old(out)@ + (if d.related_codes@.len() == 0 {
            Seq::empty()
        } else {
            seq!['\n'] + "  see also: "@ + join(d.related_codes@.map_values(|c: std::borrow::Cow<'static, str>| c@), ", "@) + seq!['\n']
        }),
{
    let codes = d.related_codes.as_slice();
    if codes.len() == 0 {
        return;
    }
    let ghost start = out@;
    let ghost texts = codes@.map_values(|c: std::borrow::Cow<'static, str>| c@);
    push_char(out, '\n');
    push_str(out, "  see also: ");
    let mut i: usize = 0;
    while i < codes.len()
        invariant
            codes@ == d.related_codes@,
            texts == codes@.map_values(|c: std::borrow::Cow<'static, str>| c@),
            i <= codes@.len(),
            out@ == start + seq!['\n'] + "  see also: "@ + join(texts.take(i as int), ", "@),
        decreases codes@.len() - i,
    {
        proof {
            assert(texts.take(i + 1) =~= texts.take(i as int).push(texts[i as int]));
            if i > 0 {
                lemma_join_push(texts.take(i as int), ", "@, texts[i as int]);
            } else {
                assert(texts.take(i as int).push(texts[i as int]) =~= seq![texts[i as int]]);
            }
        }
        if i > 0 {
            push_str(out, ", ");
        }
        push_str(out, cow_str(&codes[i]));
        i += 1;
        assert(out@ =~= start + seq!['\n'] + "  see also: "@ + join(texts.take(i as int), ", "@));
    }
    assert(texts.take(codes@.len() as int) =~= texts);
    push_char(out, '\n');
}

/// Renders the diagnostics visible at `min` as the local layout shows them.
pub fn render_diagnostics(d: &Diagnostics, min: DiagnosticVisibility) -> (r: String)
    ensures
        r@ == diagnostics_text(*d, min),
{
    let mut out = String::new();
    push_hints(&mut out, d, min);
    push_suggestions(&mut out, d, min);
    match &d.doc_link {
        Some(doc) => {
            if doc.visibility.is_at_least(min) {
                push_char(&mut out, '\n');
                match &doc.title {
                    Some(t) => {
                        push_str(&mut out, "  docs: ");
                        push_str(&mut out, cow_str(t));
                        push_str(&mut out, " (");
                        push_str(&mut out, cow_str(&doc.url));
                        push_char(&mut out, ')');
                        push_char(&mut out, '\n');
                    }
                    None => {
                        push_str(&mut out, "  docs: ");
                        push_str(&mut out, cow_str(&doc.url));
                        push_char(&mut out, '\n');
                    }
                }
            }
        }
        None => {}
    }
    push_related_codes(&mut out, d);
    assert(out@ =~= diagnostics_text(*d, min));
    out
}

impl Error {
    /// The diagnostics block of the local layout: everything attached, at
    /// the development visibility threshold (empty without diagnostics).
    pub fn fmt_diagnostics(&self) -> (r: String)
        ensures
            r@ == (match self.diagnostics {
                Some(d) => diagnostics_text(d, DiagnosticVisibility::DevOnly),
                None => Seq::empty(),
            }),
    {
        match &self.diagnostics {
            Some(d) => render_diagnostics(d, DiagnosticVisibility::DevOnly),
            None => String::new(),
        }
    }
}

/// Reading back a cached mode gives the mode that was cached.
pub proof fn law_cached_mode_roundtrip(mode: DisplayMode)
    ensures
        mode_from_code(mode_code(mode)) == mode,
        mode_code(mode) != MODE_CACHE_UNSET,
{
}

/// Value of a hex digit character (`0-9`, `a-f`, `A-F`); 0 for others.
pub open spec fn hex_value(c: char) -> nat {
    if '0' <= c <= '9' {
        (c as nat - '0' as nat) as nat
    } else if 'a' <= c <= 'f' {
        (c as nat - 'a' as nat + 10) as nat
    } else if 'A' <= c <= 'F' {
        (c as nat - 'A' as nat + 10) as nat
    } else {
        0
    }
}

/// The character a JSON escape `\x` (other than `\u`) stands for.
pub open spec fn json_simple_escape(e: char) -> Option<char> {
    if e == '"' { Some('"') }
    else if e == '\\' { Some('\\') }
    else if e == '/' { Some('/') }
    else if e == 'b' { Some('\x08') }
    else if e == 'f' { Some('\x0c') }
    else if e == 'n' { Some('\n') }
    else if e == 'r' { Some('\r') }
    else if e == 't' { Some('\t') }
    else { None }
}

/// Decoding of a JSON string body: each escape (`\"`, `\\`, `\/`, `\b`,
/// `\f`, `\n`, `\r`, `\t`, `\uXXXX`) becomes the character it stands for;
/// every other character stands for itself.
pub open spec fn json_unescape(t: Seq<char>) -> Seq<char>
    decreases t.len(),
{
    if t.len() == 0 {
        Seq::empty()
    } else if t[0] == '\\' && t.len() >= 6 && t[1] == 'u' {
        let v = hex_value(t[2]) * 4096 + hex_value(t[3]) * 256 + hex_value(t[4]) * 16 + hex_value(t[5]);
        seq![v as char] + json_unescape(t.skip(6))
    } else if t[0] == '\\' && t.len() >= 2 && json_simple_escape(t[1]) is Some {
        seq![json_simple_escape(t[1]).unwrap()] + json_unescape(t.skip(2))
    } else {
        seq![t[0]] + json_unescape(t.drop_first())
    }
}

/// The escape of a text is the escape of its first character followed by
/// the escape of the rest.
proof fn lemma_json_escape_front(s: Seq<char>)
    requires
        s.len() > 0,
    ensures
        json_escape(s) == json_escape_char(s[0]) + json_escape(s.drop_first()),
    decreases s.len(),
{
    if s.len() == 1 {
        assert(s.drop_last() =~= Seq::<char>::empty());
        assert(s.drop_first() =~= Seq::<char>::empty());
        assert(json_escape(s.drop_first()) =~= Seq::<char>::empty());
        assert(json_escape(s) =~= json_escape_char(s[0]));
    } else {
        lemma_json_escape_front(s.drop_last());
        assert(s.drop_last().drop_first() =~= s.drop_first().drop_last());
        assert(s.drop_first().last() == s.last());
        assert(s.drop_last()[0] == s[0]);
        assert(json_escape(s) =~= json_escape_char(s[0]) + json_escape(s.drop_first()));
    }
}

/// Hex digits read back as the values they were written from.
proof fn lemma_hex_value(d: nat)
    requires
        d < 16,
    ensures
        hex_value(hex_char(d)) == d,
{
}

/// Decoding the escape of one character followed by any text gives the
/// character followed by the decoding of that text.
proof fn lemma_json_unescape_char(c: char, rest: Seq<char>)
    ensures
        json_unescape(json_escape_char(c) + rest) == seq![c] + json_unescape(rest),
{
    let t = json_escape_char(c) + rest;
    if c == '"' || c == '\\' || c == '\n' || c == '\r' || c == '\t' {
        assert(t[0] == '\\');
        assert(t.skip(2) =~= rest);
    } else if is_control_char(c) {
        let n = c as nat;
        assert(n < 0xa0);
        lemma_hex_value((n / 4096) % 16);
        lemma_hex_value((n / 256) % 16);
        lemma_hex_value((n / 16) % 16);
        lemma_hex_value(n % 16);
        assert(t[0] == '\\' && t[1] == 'u');
        assert(t.skip(6) =~= rest);
        assert(hex_value(t[2]) * 4096 + hex_value(t[3]) * 256 + hex_value(t[4]) * 16 + hex_value(t[5]) == n);
        assert((n as char) == c);
    } else {
        assert(t[0] == c);
        assert(t.drop_first() =~= rest);
    }
}

/// Decoding a JSON-escaped text as a JSON string body gives the text back.
pub proof fn law_json_escape_roundtrip(s: Seq<char>)
    ensures
        json_unescape(json_escape(s)) == s,
    decreases s.len(),
{
    if s.len() == 0 {
        assert(json_escape(s) =~= Seq::<char>::empty());
    } else {
        lemma_json_escape_front(s);
        lemma_json_unescape_char(s[0], json_escape(s.drop_first()));
        law_json_escape_roundtrip(s.drop_first());
        assert(s =~= seq![s[0]] + s.drop_first());
    }
}

/// No control character survives JSON escaping, and every double quote in
/// the output is preceded by a backslash.
pub proof fn law_json_escape_is_clean(s: Seq<char>)
    ensures
        forall|i: int| 0 <= i < json_escape(s).len() ==> !is_control_char(#[trigger] json_escape(s)[i]),
        forall|i: int| 0 <= i < json_escape(s).len() && #[trigger] json_escape(s)[i] == '"' ==> i > 0 && json_escape(s)[i - 1] == '\\',
    decreases s.len(),
{
    if s.len() > 0 {
        law_json_escape_is_clean(s.drop_last());
        let prefix = json_escape(s.drop_last());
        let tail = json_escape_char(s.last());
        assert(json_escape(s) == prefix + tail);
        assert forall|i: int| 0 <= i < tail.len() implies !is_control_char(#[trigger] tail[i]) by {
            lemma_hex4_is_hex((s.last() as nat));
        }
        assert forall|i: int| 0 <= i < json_escape(s).len() implies !is_control_char(#[trigger] json_escape(s)[i]) by {
            if i >= prefix.len() {
                assert(json_escape(s)[i] == tail[i - prefix.len()]);
            } else {
                assert(json_escape(s)[i] == prefix[i]);
            }
        }
        assert forall|i: int| 0 <= i < json_escape(s).len() && #[trigger] json_escape(s)[i] == '"' implies i > 0 && json_escape(s)[i - 1] == '\\' by {
            if i >= prefix.len() {
                assert(json_escape(s)[i] == tail[i - prefix.len()]);
                lemma_hex4_is_hex((s.last() as nat));
                if i - prefix.len() == 1 {
                    assert(json_escape(s)[i - 1] == tail[0]);
                }
            } else {
                assert(json_escape(s)[i] == prefix[i]);
                assert(json_escape(s)[i - 1] == prefix[i - 1]);
            }
        }
    }
}

/// Lowercase hex digits are neither control characters nor quotes.
proof fn lemma_hex4_is_hex(n: nat)
    ensures
        forall|i: int| 0 <= i < 4 ==> {
            let c = #[trigger] hex4(n)[i];
            ('0' <= c <= '9' || 'a' <= c <= 'f')
        },
{
    assert forall|d: nat| d < 16 implies ('0' <= #[trigger] hex_char(d) <= '9' || 'a' <= hex_char(d) <= 'f') by {}
}

/// A recognised `MASTERROR_ENV` value decides the mode whatever the build
/// and Kubernetes say: `local`, `dev` and `development` select the local
/// report, `prod` and `production` the production layout, `staging` and
/// `stage` the staging layout. Without the variable, Kubernetes selects
/// production, and otherwise debug builds are local and release builds
/// production.
pub proof fn law_environment_selects_mode(env: Environment)
    ensures
        (env.masterror_env matches Some(v) && (v@ == "local"@ || v@ == "dev"@ || v@ == "development"@))
            ==> detected_mode(env) == DisplayMode::Local,
        (env.masterror_env matches Some(v) && (v@ == "prod"@ || v@ == "production"@))
            ==> detected_mode(env) == DisplayMode::Prod,
        (env.masterror_env matches Some(v) && (v@ == "staging"@ || v@ == "stage"@))
            ==> detected_mode(env) == DisplayMode::Staging,
        (env.masterror_env is None && env.kubernetes_service_host) ==> detected_mode(env) == DisplayMode::Prod,
        (env.masterror_env is None && !env.kubernetes_service_host && env.debug_build)
            ==> detected_mode(env) == DisplayMode::Local,
        (env.masterror_env is None && !env.kubernetes_service_host && !env.debug_build)
            ==> detected_mode(env) == DisplayMode::Prod,
{
    reveal_strlit("prod");
    reveal_strlit("production");
    reveal_strlit("local");
    reveal_strlit("dev");
    reveal_strlit("development");
    reveal_strlit("staging");
    reveal_strlit("stage");
    assert("local"@[0] != "prod"@[0] && "local"@[0] != "production"@[0]);
    assert("dev"@[0] != "prod"@[0] && "dev"@[0] != "production"@[0]);
    assert("development"@[0] != "prod"@[0] && "development"@[0] != "production"@[0]);
    assert("staging"@[0] != "prod"@[0] && "staging"@[0] != "production"@[0]);
    assert("stage"@[0] != "prod"@[0] && "stage"@[0] != "production"@[0]);
    assert("staging"@[0] != "local"@[0] && "staging"@[0] != "dev"@[0] && "staging"@[0] != "development"@[0]);
    assert("stage"@[0] != "local"@[0] && "stage"@[0] != "dev"@[0] && "stage"@[0] != "development"@[0]);
}

} // verus!
