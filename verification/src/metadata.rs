//! Structured metadata attached to errors: named fields with typed values
//! and a redaction policy each, kept sorted by name.

use std::borrow::Cow;

use vstd::prelude::*;
use vstd::std_specs::iter::IteratorSpec;
use vstd::utf8::encode_utf8;

use crate::message::IntoMessage;
use crate::redaction_policy::{default_redaction, infer_default_redaction, FieldRedaction};
use crate::text::{bytes_lt, compare_bytes, lemma_bytes_lt_irrefl, lemma_bytes_lt_total, lemma_bytes_lt_trans};

verus! {

/// Value stored inside [`Metadata`].
#[derive(Clone, Debug, PartialEq)]
pub enum FieldValue {
    /// Human-readable string.
    Str(Cow<'static, str>),
    /// Signed 64-bit integer.
    I64(i64),
    /// Unsigned 64-bit integer.
    U64(u64),
    /// Boolean flag.
    Bool(bool),
    /// UUID, by its 128-bit value.
    Uuid(u128),
    /// Elapsed duration as whole seconds and nanoseconds.
    Duration {
        /// Whole seconds.
        secs: u64,
        /// Nanoseconds within the second.
        nanos: u32,
    },
}

/// Single metadata field: name, value and redaction policy.
#[derive(Clone, Debug, PartialEq)]
pub struct Field {
    name: &'static str,
    value: FieldValue,
    redaction: FieldRedaction,
}

/// Abstract value of a field.
pub struct FieldView {
    /// The field's name.
    pub name: Seq<char>,
    /// The field's value.
    pub value: FieldValue,
    /// The field's redaction policy.
    pub redaction: FieldRedaction,
}

impl View for Field {
    type V = FieldView;

    closed spec fn view(&self) -> FieldView {
        FieldView { name: self.name@, value: self.value, redaction: self.redaction }
    }
}

impl Field {
    /// A field whose redaction policy is inferred from its name.
    pub fn new(name: &'static str, value: FieldValue) -> (r: Field)
        ensures
            r@.name == name@,
            r@.value == value,
            r@.redaction == default_redaction(encode_utf8(name@)),
    {
        let redaction = infer_default_redaction(name);
        Field { name, value, redaction }
    }

    /// The field's name.
    pub fn name(&self) -> (r: &'static str)
        ensures
            r@ == self@.name,
    {
        self.name
    }

    /// The field's value.
    pub fn value(&self) -> (r: &FieldValue)
        ensures
            *r == self@.value,
    {
        &self.value
    }

    /// The field's redaction policy.
    pub fn redaction(&self) -> (r: FieldRedaction)
        ensures
            r == self@.redaction,
    {
        self.redaction
    }

    /// The same field with another redaction policy.
    pub fn with_redaction(self, redaction: FieldRedaction) -> (r: Field)
        ensures
            r@.name == self@.name,
            r@.value == self@.value,
            r@.redaction == redaction,
    {
        Field { redaction, ..self }
    }

    /// Changes the redaction policy in place.
    pub fn set_redaction(&mut self, redaction: FieldRedaction)
        ensures
            final(self)@.name == old(self)@.name,
            final(self)@.value == old(self)@.value,
            final(self)@.redaction == redaction,
    {
        self.redaction = redaction;
    }

    /// Name, value and redaction policy.
    pub fn into_parts(self) -> (r: (&'static str, FieldValue, FieldRedaction))
        ensures
            r.0@ == self@.name,
            r.1 == self@.value,
            r.2 == self@.redaction,
    {
        (self.name, self.value, self.redaction)
    }

    /// The field's value.
    pub fn into_value(self) -> (r: FieldValue)
        ensures
            r == self@.value,
    {
        self.value
    }
}

/// The byte key a field is ordered by.
pub open spec fn key_of(f: FieldView) -> Seq<u8> {
    encode_utf8(f.name)
}

/// Fields in strictly increasing name order (so names are distinct).
pub open spec fn sorted_by_name(s: Seq<FieldView>) -> bool {
    forall|i: int, j: int| #![trigger s[i], s[j]] 0 <= i < j < s.len() ==> bytes_lt(key_of(s[i]), key_of(s[j]))
}

/// The field named `name`, if any.
pub open spec fn lookup(s: Seq<FieldView>, name: Seq<char>) -> Option<FieldView> {
    if exists|i: int| 0 <= i < s.len() && #[trigger] s[i].name == name {
        Some(s[choose|i: int| 0 <= i < s.len() && #[trigger] s[i].name == name])
    } else {
        None
    }
}

/// In a sorted sequence the field found by name is the one at its index.
pub proof fn lemma_lookup_at(s: Seq<FieldView>, i: int)
    requires
        sorted_by_name(s),
        0 <= i < s.len(),
    ensures
        lookup(s, s[i].name) == Some(s[i]),
{
    let j = choose|j: int| 0 <= j < s.len() && #[trigger] s[j].name == s[i].name;
    if j != i {
        if j < i {
            assert(bytes_lt(key_of(s[j]), key_of(s[i])));
        } else {
            assert(bytes_lt(key_of(s[i]), key_of(s[j])));
        }
        lemma_bytes_lt_irrefl(key_of(s[i]));
    }
}

/// The last field named `name` in `s`, if any.
pub open spec fn lookup_last(s: Seq<FieldView>, name: Seq<char>) -> Option<FieldView>
    decreases s.len(),
{
    if s.len() == 0 {
        None
    } else if s.last().name == name {
        Some(s.last())
    } else {
        lookup_last(s.drop_last(), name)
    }
}

/// Replacing the field at `pos` by one of the same name keeps the order and
/// every other name's field.
proof fn lemma_replace_same_name(old_view: Seq<FieldView>, pos: int, fv: FieldView)
    requires
        sorted_by_name(old_view),
        0 <= pos < old_view.len(),
        fv.name == old_view[pos].name,
    ensures
        sorted_by_name(old_view.update(pos, fv)),
        lookup(old_view.update(pos, fv), fv.name) == Some(fv),
        forall|k: Seq<char>| k != fv.name ==> #[trigger] lookup(old_view.update(pos, fv), k) == lookup(old_view, k),
{
    let new_view = old_view.update(pos, fv);
    assert forall|i: int, j: int| #![trigger new_view[i], new_view[j]] 0 <= i < j < new_view.len()
        implies bytes_lt(key_of(new_view[i]), key_of(new_view[j])) by {
        assert(bytes_lt(key_of(old_view[i]), key_of(old_view[j])));
    }
    lemma_lookup_at(new_view, pos);
    assert forall|k: Seq<char>| k != fv.name implies #[trigger] lookup(new_view, k) == lookup(old_view, k) by {
        if exists|i: int| 0 <= i < old_view.len() && #[trigger] old_view[i].name == k {
            let i = choose|i: int| 0 <= i < old_view.len() && #[trigger] old_view[i].name == k;
            lemma_lookup_at(old_view, i);
            lemma_lookup_at(new_view, i);
        } else {
            assert forall|i: int| 0 <= i < new_view.len() implies #[trigger] new_view[i].name != k by {
                if i != pos {
                    assert(new_view[i] == old_view[i]);
                }
            }
        }
    }
}

/// In a sorted sequence a name is found exactly where it stands, and not at
/// all when no field carries it.
proof fn lemma_lookup_sorted(s: Seq<FieldView>, k: Seq<char>)
    requires
        sorted_by_name(s),
    ensures
        lookup(s, k) is None <==> forall|i: int| 0 <= i < s.len() ==> #[trigger] s[i].name != k,
        forall|i: int| 0 <= i < s.len() && #[trigger] s[i].name == k ==> lookup(s, k) == Some(s[i]),
{
    assert forall|i: int| 0 <= i < s.len() && #[trigger] s[i].name == k implies lookup(s, k) == Some(s[i]) by {
        lemma_lookup_at(s, i);
    }
}

/// Metadata is determined by the field each name holds: two sorted field
/// sequences that agree on every name are the same sequence, whatever
/// order the fields were supplied in.
pub proof fn law_metadata_determined_by_names(a: Seq<FieldView>, b: Seq<FieldView>)
    requires
        sorted_by_name(a),
        sorted_by_name(b),
        forall|k: Seq<char>| #[trigger] lookup(a, k) == lookup(b, k),
    ensures
        a == b,
    decreases a.len(),
{
    if a.len() == 0 || b.len() == 0 {
        if a.len() > 0 {
            lemma_lookup_at(a, 0);
            assert(lookup(b, a[0].name) == lookup(a, a[0].name));
            lemma_lookup_sorted(b, a[0].name);
        } else if b.len() > 0 {
            lemma_lookup_at(b, 0);
            assert(lookup(a, b[0].name) == lookup(b, b[0].name));
            lemma_lookup_sorted(a, b[0].name);
        }
        assert(a =~= b);
    } else {
        let x = a[0];
        let y = b[0];
        lemma_lookup_at(a, 0);
        lemma_lookup_at(b, 0);
        assert(lookup(b, x.name) == Some(x));
        assert(lookup(a, y.name) == Some(y));
        lemma_lookup_sorted(b, x.name);
        lemma_lookup_sorted(a, y.name);
        let j = choose|j: int| 0 <= j < b.len() && #[trigger] b[j].name == x.name;
        let i = choose|i: int| 0 <= i < a.len() && #[trigger] a[i].name == y.name;
        assert(b[j] == x);
        assert(a[i] == y);
        if i > 0 && j > 0 {
            assert(bytes_lt(key_of(y), key_of(x)));
            assert(bytes_lt(key_of(x), key_of(y)));
            lemma_bytes_lt_total(key_of(x), key_of(y));
        }
        assert(x == y);
        let a1 = a.drop_first();
        let b1 = b.drop_first();
        assert(sorted_by_name(a1)) by {
            assert forall|p: int, q: int| #![trigger a1[p], a1[q]] 0 <= p < q < a1.len()
                implies bytes_lt(key_of(a1[p]), key_of(a1[q])) by {
                assert(a1[p] == a[p + 1] && a1[q] == a[q + 1]);
            }
        }
        assert(sorted_by_name(b1)) by {
            assert forall|p: int, q: int| #![trigger b1[p], b1[q]] 0 <= p < q < b1.len()
                implies bytes_lt(key_of(b1[p]), key_of(b1[q])) by {
                assert(b1[p] == b[p + 1] && b1[q] == b[q + 1]);
            }
        }
        assert forall|k: Seq<char>| #[trigger] lookup(a1, k) == lookup(b1, k) by {
            lemma_lookup_sorted(a, k);
            lemma_lookup_sorted(b, k);
            lemma_lookup_sorted(a1, k);
            lemma_lookup_sorted(b1, k);
            if k == x.name {
                assert forall|p: int| 0 <= p < a1.len() implies #[trigger] a1[p].name != k by {
                    assert(a1[p] == a[p + 1]);
                    assert(bytes_lt(key_of(a[0]), key_of(a[p + 1])));
                    lemma_bytes_lt_irrefl(key_of(a[0]));
                }
                assert forall|p: int| 0 <= p < b1.len() implies #[trigger] b1[p].name != k by {
                    assert(b1[p] == b[p + 1]);
                    assert(bytes_lt(key_of(b[0]), key_of(b[p + 1])));
                    lemma_bytes_lt_irrefl(key_of(b[0]));
                }
            } else {
                assert(lookup(a, k) == lookup(b, k));
                if exists|p: int| 0 <= p < a1.len() && #[trigger] a1[p].name == k {
                    let p = choose|p: int| 0 <= p < a1.len() && #[trigger] a1[p].name == k;
                    assert(a[p + 1] == a1[p]);
                    let q = choose|q: int| 0 <= q < b.len() && #[trigger] b[q].name == k;
                    assert(q != 0);
                    assert(b1[q - 1] == b[q]);
                } else if exists|p: int| 0 <= p < b1.len() && #[trigger] b1[p].name == k {
                    let p = choose|p: int| 0 <= p < b1.len() && #[trigger] b1[p].name == k;
                    assert(b[p + 1] == b1[p]);
                    let q = choose|q: int| 0 <= q < a.len() && #[trigger] a[q].name == k;
                    assert(q != 0);
                    assert(a1[q - 1] == a[q]);
                }
            }
        }
        law_metadata_determined_by_names(a1, b1);
        assert(a =~= seq![x] + a1);
        assert(b =~= seq![y] + b1);
    }
}

/// Structured metadata: fields kept sorted by name, one per name.
#[derive(Debug, PartialEq)]
pub struct Metadata {
    fields: Vec<Field>,
}

impl View for Metadata {
    type V = Seq<FieldView>;

    closed spec fn view(&self) -> Seq<FieldView> {
        self.fields@.map_values(|f: Field| f@)
    }
}

impl Metadata {
    #[verifier::type_invariant]
    spec fn inv(self) -> bool {
        sorted_by_name(self@)
    }

    /// An empty container.
    pub fn new() -> (r: Metadata)
        ensures
            r@ == Seq::<FieldView>::empty(),
    {
        let r = Metadata { fields: Vec::new() };
        assert(r@ =~= Seq::<FieldView>::empty());
        r
    }

    /// Number of fields.
    pub fn len(&self) -> (r: usize)
        ensures
            r == self@.len(),
    {
        self.fields.len()
    }

    /// Whether there are no fields.
    pub fn is_empty(&self) -> (r: bool)
        ensures
            r == (self@.len() == 0),
    {
        self.fields.len() == 0
    }

    /// The fields in name order.
    pub fn fields(&self) -> (r: &[Field])
        ensures
            r@.map_values(|f: Field| f@) == self@,
            sorted_by_name(self@),
    {
        proof { use_type_invariant(self); }
        self.fields.as_slice()
    }

    /// Position of the field named `name`, or where it would be inserted.
    fn position(&self, name: &str) -> (r: (usize, bool))
        ensures
            r.0 <= self@.len(),
            forall|j: int| 0 <= j < r.0 ==> bytes_lt(key_of(#[trigger] self@[j]), encode_utf8(name@)),
            r.1 ==> r.0 < self@.len() && self@[r.0 as int].name == name@,
            !r.1 ==> forall|j: int| r.0 <= j < self@.len() ==> bytes_lt(encode_utf8(name@), key_of(#[trigger] self@[j])),
            sorted_by_name(self@),
    {
        proof { use_type_invariant(self); }
        let key = name.as_bytes();
        let n = self.fields.len();
        let mut i: usize = 0;
        while i < n
            invariant
                n == self@.len(),
                n == self.fields@.len(),
                key@ == encode_utf8(name@),
                sorted_by_name(self@),
                i <= n,
                forall|j: int| 0 <= j < i ==> bytes_lt(key_of(#[trigger] self@[j]), key@),
            decreases n - i,
        {
            let c = compare_bytes(self.fields[i].name.as_bytes(), key);
            proof { assert(self@[i as int] == self.fields@[i as int]@); }
            if c == 0 {
                proof { vstd::utf8::encode_utf8_decode_utf8(self@[i as int].name); vstd::utf8::encode_utf8_decode_utf8(name@); }
                return (i, true);
            }
            if c > 0 {
                proof {
                    assert forall|j: int| i <= j < self@.len() implies bytes_lt(key@, key_of(#[trigger] self@[j])) by {
                        if j > i {
                            assert(bytes_lt(key_of(self@[i as int]), key_of(self@[j])));
                            lemma_bytes_lt_trans(key@, key_of(self@[i as int]), key_of(self@[j]));
                        }
                    }
                }
                return (i, false);
            }
            i += 1;
        }
        (n, false)
    }

    /// Metadata holding the given fields; of several fields with one name
    /// the last wins.
    pub fn from_fields(fields: Vec<Field>) -> (r: Metadata)
        ensures
            sorted_by_name(r@),
            forall|k: Seq<char>| #[trigger] lookup(r@, k) == lookup_last(fields@.map_values(|f: Field| f@), k),
    {
        let mut m = Metadata::new();
        m.extend(fields);
        proof { use_type_invariant(&m); }
        m
    }

    /// Inserts every field in order.
    pub fn extend(&mut self, fields: Vec<Field>)
        ensures
            forall|k: Seq<char>| #[trigger] lookup(final(self)@, k) == (match lookup_last(fields@.map_values(|f: Field| f@), k) {
                Some(f) => Some(f),
                None => lookup(old(self)@, k),
            }),
    {
        let ghost input = fields@.map_values(|f: Field| f@);
        let ghost start = self@;
        let mut fields = fields;
        let mut rest: Vec<Field> = Vec::new();
        let n = fields.len();
        // Reverse so that popping yields the fields in the order given.
        while fields.len() > 0
            invariant
                fields@.len() + rest@.len() == n,
                forall|i: int| 0 <= i < rest@.len() ==> #[trigger] rest@[i]@ == input[n - 1 - i],
                forall|i: int| 0 <= i < fields@.len() ==> #[trigger] fields@[i]@ == input[i],
                n == input.len(),
            decreases fields@.len(),
        {
            let f = fields.pop().unwrap();
            rest.push(f);
        }
        let mut i: usize = 0;
        while rest.len() > 0
            invariant
                i + rest@.len() == n,
                n == input.len(),
                forall|j: int| 0 <= j < rest@.len() ==> #[trigger] rest@[j]@ == input[n - 1 - j],
                forall|k: Seq<char>| #[trigger] lookup(self@, k) == (match lookup_last(input.take(i as int), k) {
                    Some(f) => Some(f),
                    None => lookup(start, k),
                }),
            decreases rest@.len(),
        {
            let f = rest.pop().unwrap();
            let ghost fv = f@;
            let ghost before = self@;
            assert(fv == input[i as int]);
            self.insert(f);
            proof {
                assert(input.take(i + 1).drop_last() =~= input.take(i as int));
                assert forall|k: Seq<char>| #[trigger] lookup(self@, k) == (match lookup_last(input.take(i + 1), k) {
                    Some(f) => Some(f),
                    None => lookup(start, k),
                }) by {
                    if k != fv.name {
                        assert(lookup(self@, k) == lookup(before, k));
                    }
                }
            }
            i += 1;
        }
        assert(input.take(n as int) =~= input);
    }

    /// The value of the field named `name`.
    pub fn get(&self, name: &'static str) -> (r: Option<&FieldValue>)
        ensures
            (match lookup(self@, name@) {
                Some(f) => r matches Some(v) && *v == f.value,
                None => r is None,
            }),
    {
        match self.get_field(name) {
            Some(f) => Some(f.value()),
            None => None,
        }
    }

    /// The field named `name`.
    pub fn get_field(&self, name: &'static str) -> (r: Option<&Field>)
        ensures
            (match lookup(self@, name@) {
                Some(f) => r matches Some(x) && x@ == f,
                None => r is None,
            }),
    {
        let (pos, found) = self.position(name);
        if found {
            proof { lemma_lookup_at(self@, pos as int); }
            assert(self.fields@[pos as int]@ == self@[pos as int]);
            Some(&self.fields[pos])
        } else {
            proof {
                assert forall|j: int| 0 <= j < self@.len() implies #[trigger] self@[j].name != name@ by {
                    if j < pos as int {
                        assert(bytes_lt(key_of(self@[j]), encode_utf8(name@)));
                    } else {
                        assert(bytes_lt(encode_utf8(name@), key_of(self@[j])));
                    }
                    lemma_bytes_lt_irrefl(encode_utf8(name@));
                }
            }
            None
        }
    }

    /// The redaction policy of the field named `name`.
    pub fn redaction(&self, name: &'static str) -> (r: Option<FieldRedaction>)
        ensures
            r == (match lookup(self@, name@) {
                Some(f) => Some(f.redaction),
                None => None,
            }),
    {
        match self.get_field(name) {
            Some(f) => Some(f.redaction()),
            None => None,
        }
    }

    /// Changes the redaction policy of the field named `name`, if present.
    pub fn set_redaction(&mut self, name: &'static str, redaction: FieldRedaction)
        ensures
            final(self)@.len() == old(self)@.len(),
            lookup(final(self)@, name@) == (match lookup(old(self)@, name@) {
                Some(f) => Some(FieldView { redaction, ..f }),
                None => None,
            }),
            forall|k: Seq<char>| k != name@ ==> #[trigger] lookup(final(self)@, k) == lookup(old(self)@, k),
    {
        proof { use_type_invariant(&*self); }
        let ghost old_view = self@;
        let (pos, found) = self.position(name);
        if found {
            proof { lemma_lookup_at(old_view, pos as int); }
            let mut fields = Vec::new();
            std::mem::swap(&mut fields, &mut self.fields);
            let mut f = fields.remove(pos);
            f.set_redaction(redaction);
            let ghost fv = f@;
            fields.insert(pos, f);
            proof {
                assert(fields@.map_values(|f: Field| f@) =~= old_view.update(pos as int, fv));
                lemma_replace_same_name(old_view, pos as int, fv);
            }
            self.fields = fields;
        } else {
            proof {
                assert forall|j: int| 0 <= j < self@.len() implies #[trigger] self@[j].name != name@ by {
                    if j < pos as int {
                        assert(bytes_lt(key_of(self@[j]), encode_utf8(name@)));
                    } else {
                        assert(bytes_lt(encode_utf8(name@), key_of(self@[j])));
                    }
                    lemma_bytes_lt_irrefl(encode_utf8(name@));
                }
            }
        }
    }

    /// Names and values in name order.
    pub fn iter(&self) -> (r: std::vec::IntoIter<(&'static str, &FieldValue)>)
        ensures
            sorted_by_name(self@),
            IteratorSpec::remaining(&r).len() == self@.len(),
            forall|i: int| 0 <= i < self@.len() ==> {
                &&& (#[trigger] IteratorSpec::remaining(&r)[i]).0@ == self@[i].name
                &&& *IteratorSpec::remaining(&r)[i].1 == self@[i].value
            },
    {
        proof { use_type_invariant(self); }
        let mut out: Vec<(&'static str, &FieldValue)> = Vec::new();
        let mut i: usize = 0;
        while i < self.fields.len()
            invariant
                i <= self@.len(),
                self.fields@.len() == self@.len(),
                out@.len() == i,
                forall|j: int| 0 <= j < i ==> {
                    &&& (#[trigger] out@[j]).0@ == self@[j].name
                    &&& *out@[j].1 == self@[j].value
                },
            decreases self@.len() - i,
        {
            let f = &self.fields[i];
            assert(f@ == self@[i as int]);
            out.push((f.name(), f.value()));
            i += 1;
        }
        proof { vstd::std_specs::vec::axiom_spec_into_iter(out); }
        out.into_iter()
    }

    /// Names, values and redaction policies in name order.
    pub fn iter_with_redaction(&self) -> (r: std::vec::IntoIter<(&'static str, &FieldValue, FieldRedaction)>)
        ensures
            IteratorSpec::remaining(&r).len() == self@.len(),
            forall|i: int| 0 <= i < self@.len() ==> {
                &&& (#[trigger] IteratorSpec::remaining(&r)[i]).0@ == self@[i].name
                &&& *IteratorSpec::remaining(&r)[i].1 == self@[i].value
                &&& IteratorSpec::remaining(&r)[i].2 == self@[i].redaction
            },
    {
        let mut out: Vec<(&'static str, &FieldValue, FieldRedaction)> = Vec::new();
        let mut i: usize = 0;
        while i < self.fields.len()
            invariant
                i <= self@.len(),
                self.fields@.len() == self@.len(),
                out@.len() == i,
                forall|j: int| 0 <= j < i ==> {
                    &&& (#[trigger] out@[j]).0@ == self@[j].name
                    &&& *out@[j].1 == self@[j].value
                    &&& out@[j].2 == self@[j].redaction
                },
            decreases self@.len() - i,
        {
            let f = &self.fields[i];
            assert(f@ == self@[i as int]);
            out.push((f.name(), f.value(), f.redaction()));
            i += 1;
        }
        proof { vstd::std_specs::vec::axiom_spec_into_iter(out); }
        out.into_iter()
    }

    /// Inserts a field, replacing one of the same name, and returns the
    /// replaced field's value.
    pub fn insert(&mut self, field: Field) -> (r: Option<FieldValue>)
        ensures
            r == (match lookup(old(self)@, field@.name) {
                Some(f) => Some(f.value),
                None => None,
            }),
            lookup(final(self)@, field@.name) == Some(field@),
            forall|k: Seq<char>| k != field@.name ==> #[trigger] lookup(final(self)@, k) == lookup(old(self)@, k),
            final(self)@.len() == old(self)@.len() + (if lookup(old(self)@, field@.name) is Some { 0int } else { 1int }),
    {
        proof { use_type_invariant(&*self); }
        let ghost old_view = self@;
        let (pos, found) = self.position(field.name);
        if found {
            let ghost fv = field@;
            proof { lemma_lookup_at(old_view, pos as int); }
            let mut fields = Vec::new();
            std::mem::swap(&mut fields, &mut self.fields);
            let previous = fields.remove(pos);
            fields.insert(pos, field);
            proof {
                assert(fields@.map_values(|f: Field| f@) =~= old_view.update(pos as int, fv));
                lemma_replace_same_name(old_view, pos as int, fv);
            }
            self.fields = fields;
            Some(previous.into_value())
        } else {
            let ghost fv = field@;
            let mut fields = Vec::new();
            std::mem::swap(&mut fields, &mut self.fields);
            fields.insert(pos, field);
            let ghost new_view = fields@.map_values(|f: Field| f@);
            proof {
                assert(new_view =~= old_view.insert(pos as int, fv));
                assert forall|i: int, j: int| #![trigger new_view[i], new_view[j]] 0 <= i < j < new_view.len()
                    implies bytes_lt(key_of(new_view[i]), key_of(new_view[j])) by {
                    if i < pos as int && j < pos as int {
                        assert(bytes_lt(key_of(old_view[i]), key_of(old_view[j])));
                    } else if i < pos as int && j == pos as int {
                        assert(bytes_lt(key_of(old_view[i]), key_of(fv)));
                    } else if i < pos as int {
                        assert(bytes_lt(key_of(old_view[i]), key_of(fv)));
                        assert(bytes_lt(key_of(fv), key_of(old_view[j - 1])));
                        lemma_bytes_lt_trans(key_of(old_view[i]), key_of(fv), key_of(old_view[j - 1]));
                    } else if i == pos as int {
                        assert(bytes_lt(key_of(fv), key_of(old_view[j - 1])));
                    } else {
                        assert(bytes_lt(key_of(old_view[i - 1]), key_of(old_view[j - 1])));
                    }
                }
                assert forall|i: int| 0 <= i < old_view.len() implies #[trigger] old_view[i].name != fv.name by {
                    if i < pos as int {
                        assert(bytes_lt(key_of(old_view[i]), key_of(fv)));
                    } else {
                        assert(bytes_lt(key_of(fv), key_of(old_view[i])));
                    }
                    lemma_bytes_lt_irrefl(key_of(fv));
                }
                assert(lookup(old_view, fv.name) is None);
                assert(new_view[pos as int] == fv);
                lemma_lookup_at(new_view, pos as int);
                assert forall|k: Seq<char>| k != fv.name implies #[trigger] lookup(new_view, k) == lookup(old_view, k) by {
                    if exists|i: int| 0 <= i < old_view.len() && #[trigger] old_view[i].name == k {
                        let i = choose|i: int| 0 <= i < old_view.len() && #[trigger] old_view[i].name == k;
                        lemma_lookup_at(old_view, i);
                        if i < pos as int {
                            assert(new_view[i] == old_view[i]);
                            lemma_lookup_at(new_view, i);
                        } else {
                            assert(new_view[i + 1] == old_view[i]);
                            lemma_lookup_at(new_view, i + 1);
                        }
                    } else {
                        assert forall|i: int| 0 <= i < new_view.len() implies #[trigger] new_view[i].name != k by {
                            if i < pos as int {
                                assert(new_view[i] == old_view[i]);
                            } else if i > pos as int {
                                assert(new_view[i] == old_view[i - 1]);
                            }
                        }
                    }
                }
            }
            self.fields = fields;
            None
        }
    }
}

impl Default for Metadata {
    fn default() -> (r: Metadata)
        ensures
            r@ == Seq::<FieldView>::empty(),
    {
        Metadata::new()
    }
}

} // verus!
