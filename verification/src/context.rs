//! Builder collecting the kind, code, metadata and redaction policies of an
//! error produced from another error.

use std::borrow::Cow;

use vstd::prelude::*;

use crate::code::{code_of_kind, AppCode};
use crate::error::{Error, MessageEditPolicy, RetryAdvice};
use crate::kind::AppErrorKind;
use crate::metadata::{lookup, lookup_last, Field, FieldValue, FieldView};
use crate::redaction_policy::default_redaction;
use vstd::utf8::encode_utf8;
use crate::redaction_policy::FieldRedaction;
use crate::text::str_eq;

verus! {

/// Builder for errors converted from other errors.
#[derive(Debug, Clone)]
pub struct Context {
    code: AppCode,
    category: AppErrorKind,
    fields: Vec<Field>,
    field_policies: Vec<(&'static str, FieldRedaction)>,
    edit_policy: MessageEditPolicy,
    caller_location: Option<(&'static str, u32, u32)>,
    code_overridden: bool,
}

/// Abstract value of a [`Context`].
#[verifier::ext_equal]
pub struct ContextView {
    /// Public code of the error to build.
    pub code: AppCode,
    /// Kind of the error to build.
    pub category: AppErrorKind,
    /// Metadata fields, in the order they were added.
    pub fields: Seq<FieldView>,
    /// Redaction policies by field name, in the order they were set.
    pub policies: Seq<(Seq<char>, FieldRedaction)>,
    /// Whether the message is hidden from clients.
    pub edit_policy: MessageEditPolicy,
    /// Source location (file, line, column) recorded for the error.
    pub caller: Option<(&'static str, u32, u32)>,
    /// Whether the code was set explicitly.
    pub code_overridden: bool,
}

impl View for Context {
    type V = ContextView;

    closed spec fn view(&self) -> ContextView {
        ContextView {
            code: self.code,
            category: self.category,
            fields: self.fields@.map_values(|f: Field| f@),
            policies: self.field_policies@.map_values(|p: (&'static str, FieldRedaction)| (p.0@, p.1)),
            edit_policy: self.edit_policy,
            caller: self.caller_location,
            code_overridden: self.code_overridden,
        }
    }
}

/// The policy most recently set for `name`, if any.
pub open spec fn policy_for(policies: Seq<(Seq<char>, FieldRedaction)>, name: Seq<char>) -> Option<FieldRedaction>
    decreases policies.len(),
{
    if policies.len() == 0 {
        None
    } else if policies.last().0 == name {
        Some(policies.last().1)
    } else {
        policy_for(policies.drop_last(), name)
    }
}

/// A field with a policy applied, when there is one.
pub open spec fn with_policy(f: FieldView, p: Option<FieldRedaction>) -> FieldView {
    match p {
        Some(r) => FieldView { redaction: r, ..f },
        None => f,
    }
}

/// The policies without those for `name`.
pub open spec fn without_policy(policies: Seq<(Seq<char>, FieldRedaction)>, name: Seq<char>) -> Seq<(Seq<char>, FieldRedaction)> {
    policies.filter(|p: (Seq<char>, FieldRedaction)| p.0 != name)
}

/// Every field carries the policy set for its name.
pub open spec fn fields_follow_policies(v: ContextView) -> bool {
    forall|i: int| 0 <= i < v.fields.len() ==> (#[trigger] v.fields[i]) == with_policy(v.fields[i], policy_for(v.policies, v.fields[i].name))
}

/// [`Context::code`] on the abstract value.
pub open spec fn ctx_code(v: ContextView, code: AppCode) -> ContextView {
    ContextView { code, code_overridden: true, ..v }
}

/// [`Context::category`] on the abstract value.
pub open spec fn ctx_category(v: ContextView, category: AppErrorKind) -> ContextView {
    ContextView { category, code: if v.code_overridden { v.code } else { code_of_kind(category) }, ..v }
}

/// [`Context::with`] on the abstract value.
pub open spec fn ctx_with(v: ContextView, f: FieldView) -> ContextView {
    ContextView { fields: v.fields.push(with_policy(f, policy_for(v.policies, f.name))), ..v }
}

/// [`Context::redact_field`] on the abstract value.
pub open spec fn ctx_redact_field(v: ContextView, name: Seq<char>, redaction: FieldRedaction) -> ContextView {
    ContextView {
        policies: without_policy(v.policies, name).push((name, redaction)),
        fields: v.fields.map_values(|f: FieldView| if f.name == name { FieldView { redaction, ..f } } else { f }),
        ..v
    }
}

/// The policy found for a name, searching from the most recent.
fn find_policy(policies: &[(&'static str, FieldRedaction)], name: &str) -> (r: Option<FieldRedaction>)
    ensures
        r == policy_for(policies@.map_values(|p: (&'static str, FieldRedaction)| (p.0@, p.1)), name@),
{
    let ghost view = policies@.map_values(|p: (&'static str, FieldRedaction)| (p.0@, p.1));
    let mut i: usize = policies.len();
    assert(view.take(i as int) =~= view);
    while i > 0
        invariant
            i <= policies@.len(),
            view == policies@.map_values(|p: (&'static str, FieldRedaction)| (p.0@, p.1)),
            policy_for(view, name@) == policy_for(view.take(i as int), name@),
        decreases i,
    {
        let (n, p) = policies[i - 1];
        proof {
            assert(view.take(i as int).drop_last() =~= view.take(i - 1));
            assert(view.take(i as int).last() == view[i - 1]);
        }
        if str_eq(n, name) {
            return Some(p);
        }
        i -= 1;
    }
    None
}

impl Context {
    /// Applies to each field the policy last set for its name; fields
    /// without one keep theirs.
    pub fn apply_field_redactions(fields: &mut Vec<Field>, policies: &[(&'static str, FieldRedaction)])
        ensures
            final(fields)@.map_values(|f: Field| f@) == old(fields)@.map_values(|f: Field| f@).map_values(
                |f: FieldView| with_policy(f, policy_for(policies@.map_values(|p: (&'static str, FieldRedaction)| (p.0@, p.1)), f.name)),
            ),
    {
        let ghost pv = policies@.map_values(|p: (&'static str, FieldRedaction)| (p.0@, p.1));
        let ghost before = fields@.map_values(|f: Field| f@);
        if policies.len() == 0 {
            assert(fields@.map_values(|f: Field| f@) =~= before.map_values(|f: FieldView| with_policy(f, policy_for(pv, f.name))));
            return;
        }
        let mut i: usize = 0;
        while i < fields.len()
            invariant
                pv == policies@.map_values(|p: (&'static str, FieldRedaction)| (p.0@, p.1)),
                fields@.len() == before.len(),
                i <= fields@.len(),
                forall|k: int| 0 <= k < i ==> (#[trigger] fields@[k])@ == with_policy(before[k], policy_for(pv, before[k].name)),
                forall|k: int| i <= k < fields@.len() ==> (#[trigger] fields@[k])@ == before[k],
            decreases fields@.len() - i,
        {
            match find_policy(policies, fields[i].name()) {
                Some(p) => fields[i].set_redaction(p),
                None => {}
            }
            i += 1;
        }
        assert(fields@.map_values(|f: Field| f@) =~= before.map_values(|f: FieldView| with_policy(f, policy_for(pv, f.name))));
    }

    /// A context for errors of `category`, with that kind's code.
    pub fn new(category: AppErrorKind) -> (r: Context)
        ensures
            r@.code == code_of_kind(category),
            r@.category == category,
            r@.fields == Seq::<FieldView>::empty(),
            r@.policies == Seq::<(Seq<char>, FieldRedaction)>::empty(),
            r@.edit_policy == MessageEditPolicy::Preserve,
            r@.caller is None,
            !r@.code_overridden,
    {
        let r = Context {
            code: AppCode::from_kind(category),
            category,
            fields: Vec::new(),
            field_policies: Vec::new(),
            edit_policy: MessageEditPolicy::Preserve,
            caller_location: None,
            code_overridden: false,
        };
        assert(r@.fields =~= Seq::<FieldView>::empty());
        assert(r@.policies =~= Seq::<(Seq<char>, FieldRedaction)>::empty());
        r
    }

    /// Sets the public code explicitly; later category changes keep it.
    pub fn code(self, code: AppCode) -> (r: Context)
        ensures
            r@ == ctx_code(self@, code),
    {
        Context { code, code_overridden: true, ..self }
    }

    /// Changes the kind; the code follows the kind unless it was set
    /// explicitly.
    pub fn category(self, category: AppErrorKind) -> (r: Context)
        ensures
            r@ == ctx_category(self@, category),
    {
        if self.code_overridden {
            Context { category, ..self }
        } else {
            Context { category, code: AppCode::from_kind(category), ..self }
        }
    }

    /// Adds a metadata field, applying the policy set for its name.
    pub fn with(self, field: Field) -> (r: Context)
        ensures
            r@ == ctx_with(self@, field@),
    {
        let mut ctx = self;
        let mut field = field;
        match find_policy(ctx.field_policies.as_slice(), field.name()) {
            Some(p) => field.set_redaction(p),
            None => {}
        }
        let ghost fv = field@;
        ctx.fields.push(field);
        assert(ctx@.fields =~= self@.fields.push(fv));
        ctx
    }

    /// Sets the redaction policy of a field name, for fields added before
    /// and after.
    pub fn redact_field(self, name: &'static str, redaction: FieldRedaction) -> (r: Context)
        ensures
            r@ == ctx_redact_field(self@, name@, redaction),
    {
        let mut ctx = self;
        ctx.set_field_policy(name, redaction);
        ctx
    }

    /// Sets the redaction policy of a field name in place.
    pub fn redact_field_mut(&mut self, name: &'static str, redaction: FieldRedaction) -> (r: &mut Context)
        ensures
            *final(self) == *final(r),
            r@ == ctx_redact_field(old(self)@, name@, redaction),
    {
        self.set_field_policy(name, redaction);
        self
    }

    /// Hides (or shows) the message of the error to build.
    pub fn redact(self, redact: bool) -> (r: Context)
        ensures
            r@ == (ContextView {
                edit_policy: if redact { MessageEditPolicy::Redact } else { MessageEditPolicy::Preserve },
                ..self@
            }),
    {
        Context {
            edit_policy: if redact { MessageEditPolicy::Redact } else { MessageEditPolicy::Preserve },
            ..self
        }
    }

    /// Records the source location the error is raised from.
    pub fn with_caller_location(self, file: &'static str, line: u32, column: u32) -> (r: Context)
        ensures
            r@ == (ContextView { caller: Some((file, line, column)), ..self@ }),
    {
        Context { caller_location: Some((file, line, column)), ..self }
    }

    /// Replaces the policy of `name` and applies it to the fields so named.
    fn set_field_policy(&mut self, name: &'static str, redaction: FieldRedaction)
        ensures
            final(self)@ == ctx_redact_field(old(self)@, name@, redaction),
    {
        let ghost old_view = self@;
        let mut kept: Vec<(&'static str, FieldRedaction)> = Vec::new();
        let mut i: usize = 0;
        while i < self.field_policies.len()
            invariant
                i <= self.field_policies@.len(),
                self@ == old_view,
                kept@.map_values(|p: (&'static str, FieldRedaction)| (p.0@, p.1))
                    == without_policy(old_view.policies.take(i as int), name@),
            decreases self.field_policies@.len() - i,
        {
            let p = self.field_policies[i];
            proof {
                reveal_with_fuel(Seq::filter, 1);
                assert(old_view.policies.take(i + 1).drop_last() =~= old_view.policies.take(i as int));
                assert(old_view.policies.take(i + 1).last() == (p.0@, p.1));
            }
            if !str_eq(p.0, name) {
                kept.push(p);
            }
            i += 1;
            assert(kept@.map_values(|p: (&'static str, FieldRedaction)| (p.0@, p.1))
                =~= without_policy(old_view.policies.take(i as int), name@));
        }
        assert(old_view.policies.take(self.field_policies@.len() as int) =~= old_view.policies);
        kept.push((name, redaction));
        self.field_policies = kept;
        let mut j: usize = 0;
        while j < self.fields.len()
            invariant
                j <= self.fields@.len(),
                self.fields@.len() == old_view.fields.len(),
                forall|k: int| 0 <= k < j ==> (#[trigger] self.fields@[k])@ == (if old_view.fields[k].name == name@ {
                    FieldView { redaction, ..old_view.fields[k] }
                } else {
                    old_view.fields[k]
                }),
                forall|k: int| j <= k < self.fields@.len() ==> (#[trigger] self.fields@[k])@ == old_view.fields[k],
                self.code == old_view.code,
                self.category == old_view.category,
                self.edit_policy == old_view.edit_policy,
                self.code_overridden == old_view.code_overridden,
                self@.caller == old_view.caller,
                self.field_policies@.map_values(|p: (&'static str, FieldRedaction)| (p.0@, p.1))
                    == without_policy(old_view.policies, name@).push((name@, redaction)),
            decreases self.fields@.len() - j,
        {
            if str_eq(self.fields[j].name(), name) {
                self.fields[j].set_redaction(redaction);
            }
            j += 1;
        }
        assert(self@.fields =~= old_view.fields.map_values(|f: FieldView| if f.name == name@ { FieldView { redaction, ..f } } else { f }));
        assert(self@.policies =~= without_policy(old_view.policies, name@).push((name@, redaction)));
    }
}

/// The fields recording a source location, with their default policies.
pub open spec fn caller_fields(caller: Option<(&'static str, u32, u32)>) -> Seq<FieldView> {
    match caller {
        Some(l) => seq![
            FieldView { name: "caller.file"@, value: FieldValue::Str(Cow::Borrowed(l.0)), redaction: default_redaction(encode_utf8("caller.file"@)) },
            FieldView { name: "caller.line"@, value: FieldValue::U64(l.1 as u64), redaction: default_redaction(encode_utf8("caller.line"@)) },
            FieldView { name: "caller.column"@, value: FieldValue::U64(l.2 as u64), redaction: default_redaction(encode_utf8("caller.column"@)) },
        ],
        None => Seq::empty(),
    }
}

/// The fields of the error a context builds: its own fields then the
/// location fields, each with the policy set for its name.
pub open spec fn context_fields(v: ContextView) -> Seq<FieldView> {
    (v.fields + caller_fields(v.caller)).map_values(|f: FieldView| with_policy(f, policy_for(v.policies, f.name)))
}

impl Context {

    /// Builds the error: the kind and code, the fields (plus the location
    /// fields) with their policies, the message policy, no message, and the
    /// given cause chain.
    pub fn into_error(self, source_chain: Vec<String>) -> (r: Error)
        ensures
            built_error(r, self@, source_chain),
    {
        let ghost view = self@;
        let Context { code, category, fields, field_policies, edit_policy, caller_location, code_overridden } = self;
        let mut fields = fields;
        match caller_location {
            Some((file, line, column)) => {
                fields.push(Field::new("caller.file", FieldValue::Str(Cow::Borrowed(file))));
                fields.push(Field::new("caller.line", FieldValue::U64(line as u64)));
                fields.push(Field::new("caller.column", FieldValue::U64(column as u64)));
            }
            None => {}
        }
        assert(fields@.map_values(|f: Field| f@) =~= view.fields + caller_fields(view.caller));
        let mut error = Error::new_raw(category, None);
        error.code = code;
        if fields.len() > 0 {
            Context::apply_field_redactions(&mut fields, field_policies.as_slice());
            assert(fields@.map_values(|f: Field| f@) =~= context_fields(view));
            error.metadata.extend(fields);
        } else {
            assert(context_fields(view) =~= Seq::<FieldView>::empty());
            let mut i: usize = 0;
            while i < field_policies.len()
                invariant
                    i <= field_policies@.len(),
                    error.kind == category,
                    error.code == code,
                    error.message is None,
                    error.edit_policy == MessageEditPolicy::Preserve,
                    error.retry is None,
                    error.www_authenticate is None,
                    error.details is None,
                    error.diagnostics is None,
                    error.source_chain@ == Seq::<String>::empty(),
                    forall|k: Seq<char>| #[trigger] lookup(error.metadata@, k) is None,
                decreases field_policies@.len() - i,
            {
                let (name, redaction) = field_policies[i];
                error = error.redact_field(name, redaction);
                i += 1;
            }
        }
        if edit_policy == MessageEditPolicy::Redact {
            error.edit_policy = MessageEditPolicy::Redact;
        }
        error.with_source_chain(source_chain)
    }

    /// The fields added so far, with their policies.
    pub fn fields(&self) -> (r: &[Field])
        ensures
            r@.map_values(|f: Field| f@) == self@.fields,
    {
        self.fields.as_slice()
    }

    /// The policies set so far, by field name.
    pub fn field_policies(&self) -> (r: &[(&'static str, FieldRedaction)])
        ensures
            r@.map_values(|p: (&'static str, FieldRedaction)| (p.0@, p.1)) == self@.policies,
    {
        self.field_policies.as_slice()
    }

    /// The public code of the error to build.
    pub fn current_code(&self) -> (r: &AppCode)
        ensures
            *r == self@.code,
    {
        &self.code
    }

    /// The kind of the error to build.
    pub fn current_category(&self) -> (r: AppErrorKind)
        ensures
            r == self@.category,
    {
        self.category
    }

    /// Whether the code was set explicitly.
    pub fn is_code_overridden(&self) -> (r: bool)
        ensures
            r == self@.code_overridden,
    {
        self.code_overridden
    }

    /// The message policy of the error to build.
    pub fn edit_policy(&self) -> (r: MessageEditPolicy)
        ensures
            r == self@.edit_policy,
    {
        self.edit_policy
    }

    /// The recorded source location, if any.
    pub fn caller_location(&self) -> (r: Option<(&'static str, u32, u32)>)
        ensures
            r == self@.caller,
    {
        self.caller_location
    }
}

/// Dropping the policies of one name leaves the policy of every other name.
proof fn lemma_policy_for_without(policies: Seq<(Seq<char>, FieldRedaction)>, name: Seq<char>, other: Seq<char>)
    requires
        other != name,
    ensures
        policy_for(without_policy(policies, name), other) == policy_for(policies, other),
    decreases policies.len(),
{
    reveal_with_fuel(Seq::filter, 1);
    if policies.len() > 0 {
        lemma_policy_for_without(policies.drop_last(), name, other);
        let sub = without_policy(policies.drop_last(), name);
        if policies.last().0 != name {
            assert(without_policy(policies, name) == sub.push(policies.last()));
            assert(sub.push(policies.last()).drop_last() =~= sub);
        }
    }
}

/// Adding a field keeps every field carrying the policy of its name.
pub proof fn law_with_keeps_policies(v: ContextView, f: FieldView)
    requires
        fields_follow_policies(v),
    ensures
        fields_follow_policies(ctx_with(v, f)),
{
    let w = ctx_with(v, f);
    assert forall|i: int| 0 <= i < w.fields.len() implies (#[trigger] w.fields[i]) == with_policy(w.fields[i], policy_for(w.policies, w.fields[i].name)) by {
        if i < v.fields.len() {
            assert(w.fields[i] == v.fields[i]);
        }
    }
}

/// Setting a policy keeps every field carrying the policy of its name: the
/// fields so named take the new policy, the others keep theirs.
pub proof fn law_redact_field_keeps_policies(v: ContextView, name: Seq<char>, redaction: FieldRedaction)
    requires
        fields_follow_policies(v),
    ensures
        fields_follow_policies(ctx_redact_field(v, name, redaction)),
{
    let w = ctx_redact_field(v, name, redaction);
    assert forall|i: int| 0 <= i < w.fields.len() implies (#[trigger] w.fields[i]) == with_policy(w.fields[i], policy_for(w.policies, w.fields[i].name)) by {
        let g = v.fields[i];
        assert(v.fields[i] == with_policy(v.fields[i], policy_for(v.policies, v.fields[i].name)));
        assert(w.policies.drop_last() =~= without_policy(v.policies, name));
        if g.name != name {
            lemma_policy_for_without(v.policies, name, g.name);
        }
    }
}

/// A string field with the default policy of its name.
pub open spec fn text_field(name: &'static str, text: Cow<'static, str>) -> FieldView {
    FieldView { name: name@, value: FieldValue::Str(text), redaction: default_redaction(encode_utf8(name@)) }
}

/// A field holding `value` with the default policy of its name.
pub open spec fn value_field(name: &'static str, value: FieldValue) -> FieldView {
    FieldView { name: name@, value, redaction: default_redaction(encode_utf8(name@)) }
}

/// The context [`Context::new`] starts for `kind`, with `fields` added.
pub open spec fn built_context(kind: AppErrorKind, fields: Seq<FieldView>) -> ContextView {
    ContextView {
        code: code_of_kind(kind),
        category: kind,
        fields,
        policies: Seq::empty(),
        edit_policy: MessageEditPolicy::Preserve,
        caller: None,
        code_overridden: false,
    }
}

/// The error a context builds with a cause chain: its kind and code, no
/// message, the context's fields, message policy and the chain.
pub open spec fn built_error(r: Error, v: ContextView, source_chain: Vec<String>) -> bool {
    &&& r.kind == v.category
    &&& r.code == v.code
    &&& r.message is None
    &&& r.edit_policy == v.edit_policy
    &&& r.retry is None
    &&& r.www_authenticate is None
    &&& r.details is None
    &&& r.diagnostics is None
    &&& r.source_chain == source_chain
    &&& forall|k: Seq<char>| #[trigger] lookup(r.metadata@, k) == lookup_last(context_fields(v), k)
}

/// The error a context builds, with retry advice of `retry` seconds when
/// there is one.
pub open spec fn built_error_with_retry(r: Error, v: ContextView, source_chain: Vec<String>, retry: Option<u64>) -> bool {
    &&& r.retry == match retry {
        Some(s) => Some(RetryAdvice { after_seconds: s }),
        None => None,
    }
    &&& built_error(Error { retry: None, ..r }, v, source_chain)
}

/// Builds the error of a context and attaches the retry advice, if any.
pub fn error_with_retry(context: Context, retry: Option<u64>, source_chain: Vec<String>) -> (r: Error)
    ensures
        built_error_with_retry(r, context@, source_chain, retry),
{
    let error = context.into_error(source_chain);
    match retry {
        Some(secs) => error.with_retry_after_secs(secs),
        None => error,
    }
}

/// A metadata value with strings taken by their text.
pub enum ValueView {
    /// Text.
    Str(Seq<char>),
    /// Signed integer.
    I64(i64),
    /// Unsigned integer.
    U64(u64),
    /// Flag.
    Bool(bool),
    /// UUID by its 128-bit value.
    Uuid(u128),
    /// Duration as seconds and nanoseconds.
    Duration(u64, u32),
}

/// A value with its string, if any, taken by its text.
pub open spec fn value_view(v: FieldValue) -> ValueView {
    match v {
        FieldValue::Str(s) => ValueView::Str(s@),
        FieldValue::I64(n) => ValueView::I64(n),
        FieldValue::U64(n) => ValueView::U64(n),
        FieldValue::Bool(b) => ValueView::Bool(b),
        FieldValue::Uuid(u) => ValueView::Uuid(u),
        FieldValue::Duration { secs, nanos } => ValueView::Duration(secs, nanos),
    }
}

/// Name, value and policy of each field, strings taken by their text.
pub open spec fn fields_view(fields: Seq<FieldView>) -> Seq<(Seq<char>, ValueView, FieldRedaction)> {
    fields.map_values(|f: FieldView| (f.name, value_view(f.value), f.redaction))
}

/// A field as [`fields_view`] shows it, with the default policy of its name.
pub open spec fn default_entry(name: Seq<char>, value: ValueView) -> (Seq<char>, ValueView, FieldRedaction) {
    (name, value, default_redaction(encode_utf8(name)))
}

} // verus!
