//! Errors from failed validation of input values.

use vstd::prelude::*;
use vstd::string::StrSliceExecFns;

use crate::context::{built_error, default_entry, fields_view, Context, ContextView, ValueView};
use crate::code::code_of_kind;
use crate::display::{first_n, join};
use crate::error::{Error, MessageEditPolicy};
use crate::field;
use crate::kind::AppErrorKind;
use crate::redaction_policy::FieldRedaction;
use crate::text::{push_char, push_str, str_eq};

verus! {

/// What failed validation: each invalid field with the codes of its
/// failures, in the order the validator lists them, and whether nested
/// structures failed too.
#[derive(Debug, Clone, PartialEq, Eq)]
pub struct ValidationFailure {
    /// Each invalid field's name and failure codes.
    pub field_errors: Vec<(String, Vec<String>)>,
    /// Whether a nested structure or list failed.
    pub has_nested: bool,
}

/// Every failure code, field by field.
pub open spec fn flat_codes(fe: Seq<(String, Vec<String>)>) -> Seq<Seq<char>>
    decreases fe.len(),
{
    if fe.len() == 0 {
        Seq::empty()
    } else {
        flat_codes(fe.drop_last()) + fe.last().1@.map_values(|c: String| c@)
    }
}

/// The first `limit` distinct texts, in order of first appearance.
pub open spec fn distinct_prefix(s: Seq<Seq<char>>, limit: nat) -> Seq<Seq<char>>
    decreases s.len(),
{
    if s.len() == 0 {
        Seq::empty()
    } else {
        let acc = distinct_prefix(s.drop_last(), limit);
        if acc.len() >= limit || acc.contains(s.last()) { acc } else { acc.push(s.last()) }
    }
}

/// The first three field names joined by commas.
pub open spec fn field_names_text(fe: Seq<(String, Vec<String>)>) -> Seq<char> {
    join(first_n(fe.map_values(|p: (String, Vec<String>)| p.0@), 3), seq![','])
}

/// The first three distinct failure codes joined by commas.
pub open spec fn codes_text(fe: Seq<(String, Vec<String>)>) -> Seq<char> {
    join(distinct_prefix(flat_codes(fe), 3), seq![','])
}

/// The fields recorded for a validation failure: the field count, the
/// failure count when positive, the first field names and the first
/// distinct codes when there are any, and whether nested structures failed.
pub open spec fn validation_fields(e: ValidationFailure) -> Seq<(Seq<char>, ValueView, FieldRedaction)> {
    let fe = e.field_errors@;
    let total = flat_codes(fe).len();
    (if fe.len() > 0 {
        seq![default_entry("validation.field_count"@, ValueView::U64(fe.len() as u64))]
            + (if total > 0 { seq![default_entry("validation.error_count"@, ValueView::U64(total as u64))] } else { Seq::empty() })
            + (if field_names_text(fe).len() > 0 { seq![default_entry("validation.fields"@, ValueView::Str(field_names_text(fe)))] } else { Seq::empty() })
            + (if distinct_prefix(flat_codes(fe), 3).len() > 0 { seq![default_entry("validation.codes"@, ValueView::Str(codes_text(fe)))] } else { Seq::empty() })
    } else {
        Seq::empty()
    }) + (if e.has_nested { seq![default_entry("validation.has_nested"@, ValueView::Bool(true))] } else { Seq::empty() })
}

/// The context of a validation failure: a validation error carrying the
/// fields of [`validation_fields`].
pub open spec fn is_validation_context(v: ContextView, e: ValidationFailure) -> bool {
    &&& v.category == AppErrorKind::Validation
    &&& v.code == code_of_kind(AppErrorKind::Validation)
    &&& v.policies == Seq::<(Seq<char>, FieldRedaction)>::empty()
    &&& v.edit_policy == MessageEditPolicy::Preserve
    &&& v.caller is None
    &&& !v.code_overridden
    &&& fields_view(v.fields) == validation_fields(e)
}

/// Once the limit is reached, later texts change nothing.
proof fn lemma_distinct_prefix_full(s: Seq<Seq<char>>, t: Seq<Seq<char>>, limit: nat)
    requires
        distinct_prefix(s, limit).len() >= limit,
    ensures
        distinct_prefix(s + t, limit) == distinct_prefix(s, limit),
    decreases t.len(),
{
    if t.len() > 0 {
        lemma_distinct_prefix_full(s, t.drop_last(), limit);
        assert((s + t).drop_last() =~= s + t.drop_last());
    }
}

/// The failure codes of the first `i + 1` fields extend those of the first
/// `i` by the codes of field `i`.
proof fn lemma_flat_codes_step(fe: Seq<(String, Vec<String>)>, i: int)
    requires
        0 <= i < fe.len(),
    ensures
        flat_codes(fe.take(i + 1)) == flat_codes(fe.take(i)) + fe[i].1@.map_values(|c: String| c@),
{
    assert(fe.take(i + 1).drop_last() =~= fe.take(i));
}

/// The comma-joined first three field names.
fn field_names(fe: &Vec<(String, Vec<String>)>) -> (r: String)
    ensures
        r@ == field_names_text(fe@),
{
    let ghost names = fe@.map_values(|p: (String, Vec<String>)| p.0@);
    let n = if fe.len() < 3 { fe.len() } else { 3 };
    let mut out = String::new();
    let mut i: usize = 0;
    while i < n
        invariant
            n <= fe@.len(),
            n == first_n(names, 3).len(),
            names == fe@.map_values(|p: (String, Vec<String>)| p.0@),
            i <= n,
            out@ == join(names.take(i as int), seq![',']),
        decreases n - i,
    {
        proof {
            assert(names.take(i + 1) =~= names.take(i as int).push(names[i as int]));
            if i > 0 {
                assert(names.take(i as int).push(names[i as int]).drop_last() =~= names.take(i as int));
            } else {
                assert(names.take(i as int).push(names[i as int]) =~= seq![names[i as int]]);
            }
        }
        if i > 0 {
            push_char(&mut out, ',');
        }
        push_str(&mut out, fe[i].0.as_str());
        i += 1;
        assert(out@ =~= join(names.take(i as int), seq![',']));
    }
    assert(names.take(n as int) =~= first_n(names, 3));
    out
}

/// Total number of failure codes.
fn total_failures(fe: &Vec<(String, Vec<String>)>) -> (r: u64)
    requires
        flat_codes(fe@).len() <= u64::MAX,
    ensures
        r == flat_codes(fe@).len(),
{
    let mut total: u64 = 0;
    let mut i: usize = 0;
    while i < fe.len()
        invariant
            i <= fe@.len(),
            total == flat_codes(fe@.take(i as int)).len(),
            flat_codes(fe@).len() <= u64::MAX,
        decreases fe@.len() - i,
    {
        proof {
            lemma_flat_codes_step(fe@, i as int);
            lemma_flat_codes_prefix(fe@, i + 1);
        }
        total = total + fe[i].1.len() as u64;
        i += 1;
    }
    assert(fe@.take(fe@.len() as int) =~= fe@);
    total
}

/// The failure codes of a prefix are no more than all of them.
proof fn lemma_flat_codes_prefix(fe: Seq<(String, Vec<String>)>, i: int)
    requires
        0 <= i <= fe.len(),
    ensures
        flat_codes(fe.take(i)).len() <= flat_codes(fe).len(),
    decreases fe.len() - i,
{
    if i < fe.len() {
        lemma_flat_codes_prefix(fe, i + 1);
        lemma_flat_codes_step(fe, i);
    } else {
        assert(fe.take(i) =~= fe);
    }
}

/// Whether a text is among the collected ones.
fn contains_text(items: &Vec<String>, text: &str) -> (r: bool)
    ensures
        r == items@.map_values(|c: String| c@).contains(text@),
{
    let ghost view = items@.map_values(|c: String| c@);
    let mut i: usize = 0;
    while i < items.len()
        invariant
            i <= items@.len(),
            view == items@.map_values(|c: String| c@),
            forall|j: int| 0 <= j < i ==> view[j] != text@,
        decreases items@.len() - i,
    {
        if str_eq(items[i].as_str(), text) {
            assert(view[i as int] == text@);
            return true;
        }
        i += 1;
    }
    false
}

/// The first three distinct failure codes, field by field.
fn first_distinct_codes(fe: &Vec<(String, Vec<String>)>) -> (r: Vec<String>)
    ensures
        r@.map_values(|c: String| c@) == distinct_prefix(flat_codes(fe@), 3),
{
    let mut codes: Vec<String> = Vec::new();
    let mut i: usize = 0;
    while i < fe.len()
        invariant
            i <= fe@.len(),
            codes@.map_values(|c: String| c@) == distinct_prefix(flat_codes(fe@.take(i as int)), 3),
        decreases fe@.len() - i,
    {
        let errors = &fe[i].1;
        let ghost before = flat_codes(fe@.take(i as int));
        let ghost entry = errors@.map_values(|c: String| c@);
        let mut j: usize = 0;
        assert(entry.take(errors@.len() as int) =~= entry);
        assert(before + entry.take(0) =~= before);
        while j < errors.len()
            invariant_except_break
                j <= errors@.len(),
                entry == errors@.map_values(|c: String| c@),
                entry.take(errors@.len() as int) == entry,
                codes@.map_values(|c: String| c@) == distinct_prefix(before + entry.take(j as int), 3),
            ensures
                codes@.map_values(|c: String| c@) == distinct_prefix(before + entry, 3),
            decreases errors@.len() - j,
        {
            if codes.len() >= 3 {
                proof {
                    lemma_distinct_prefix_full(before + entry.take(j as int), entry.skip(j as int), 3);
                    assert(before + entry.take(j as int) + entry.skip(j as int) =~= before + entry);
                }
                break;
            }
            let code = errors[j].as_str();
            let seen = contains_text(&codes, code);
            proof {
                assert((before + entry.take(j + 1)).drop_last() =~= before + entry.take(j as int));
                assert((before + entry.take(j + 1)).last() == entry[j as int]);
            }
            if !seen {
                codes.push(errors[j].clone());
                assert(codes@.map_values(|c: String| c@) =~= distinct_prefix(before + entry.take(j as int), 3).push(entry[j as int]));
            }
            j += 1;
        }
        proof {
            lemma_flat_codes_step(fe@, i as int);
        }
        i += 1;
    }
    assert(fe@.take(fe@.len() as int) =~= fe@);
    codes
}

/// The codes joined by commas.
fn join_codes(codes: &Vec<String>) -> (r: String)
    ensures
        r@ == join(codes@.map_values(|c: String| c@), seq![',']),
{
    let ghost view = codes@.map_values(|c: String| c@);
    let mut out = String::new();
    let mut i: usize = 0;
    while i < codes.len()
        invariant
            i <= codes@.len(),
            view == codes@.map_values(|c: String| c@),
            out@ == join(view.take(i as int), seq![',']),
        decreases codes@.len() - i,
    {
        proof {
            assert(view.take(i + 1) =~= view.take(i as int).push(view[i as int]));
            if i > 0 {
                assert(view.take(i as int).push(view[i as int]).drop_last() =~= view.take(i as int));
            } else {
                assert(view.take(i as int).push(view[i as int]) =~= seq![view[i as int]]);
            }
        }
        if i > 0 {
            push_char(&mut out, ',');
        }
        push_str(&mut out, codes[i].as_str());
        i += 1;
        assert(out@ =~= join(view.take(i as int), seq![',']));
    }
    assert(view.take(codes@.len() as int) =~= view);
    out
}

/// Builds the context of a validation failure.
pub fn build_validation_context(errors: &ValidationFailure) -> (r: Context)
    requires
        flat_codes(errors.field_errors@).len() <= u64::MAX,
    ensures
        is_validation_context(r@, *errors),
{
    let fe = &errors.field_errors;
    let mut context = Context::new(AppErrorKind::Validation);
    let ghost start = context@;
    if fe.len() > 0 {
        context = context.with(field::u64("validation.field_count", fe.len() as u64));
        let total = total_failures(fe);
        if total > 0 {
            context = context.with(field::u64("validation.error_count", total));
        }
        let names = field_names(fe);
        if names.as_str().unicode_len() > 0 {
            context = context.with(field::str("validation.fields", names));
        }
        let codes = first_distinct_codes(fe);
        if codes.len() > 0 {
            let joined = join_codes(&codes);
            context = context.with(field::str("validation.codes", joined));
        }
    }
    if errors.has_nested {
        context = context.with(field::bool("validation.has_nested", true));
    }
    assert(fields_view(context@.fields) =~= validation_fields(*errors));
    context
}

/// The error of a validation failure, caused by the given chain.
pub fn validation_error(errors: &ValidationFailure, source_chain: Vec<String>) -> (r: Error)
    requires
        flat_codes(errors.field_errors@).len() <= u64::MAX,
    ensures
        exists|v: ContextView| is_validation_context(v, *errors) && built_error(r, v, source_chain),
{
    let context = build_validation_context(errors);
    let ghost v = context@;
    let r = context.into_error(source_chain);
    assert(is_validation_context(v, *errors) && built_error(r, v, source_chain));
    r
}

} // verus!
