//! Default redaction policy inferred from a metadata field's name.
//!
//! Names that look like credentials are redacted, names that look like
//! tokens or keys are hashed, and names that look like card or account
//! numbers keep only their last four characters. Matching is ASCII
//! case-insensitive and works on the name's bytes.

use vstd::prelude::*;
use vstd::string::StringSliceAdditionalSpecFns;

verus! {

/// Redaction policy associated with a metadata field.
#[derive(Clone, Copy, Debug, PartialEq, Eq, Default, Structural)]
pub enum FieldRedaction {
    /// Preserve the value as-is.
    #[default]
    Preserve,
    /// Remove the value from public payloads.
    Redact,
    /// Hash the value with SHA-256 before exposure.
    Hash,
    /// Preserve only the last four characters.
    Last4,
}

/// ASCII lower-casing of one byte.
pub open spec fn lower(b: u8) -> u8 {
    if 65 <= b <= 90 { (b + 32) as u8 } else { b }
}

/// ASCII case-insensitive equality of byte strings.
pub open spec fn eq_ci(a: Seq<u8>, b: Seq<u8>) -> bool {
    a.len() == b.len() && forall|i: int| 0 <= i < a.len() ==> #[trigger] lower(a[i]) == lower(b[i])
}

/// `needle` occurs in `haystack`, ignoring ASCII case.
pub open spec fn contains_ci(haystack: Seq<u8>, needle: Seq<u8>) -> bool {
    needle.len() == 0 || exists|i: int|
        0 <= i <= haystack.len() - needle.len() && #[trigger] eq_ci(haystack.subrange(i, i + needle.len()), needle)
}

/// `value` ends with `suffix`, ignoring ASCII case.
pub open spec fn ends_with_ci(value: Seq<u8>, suffix: Seq<u8>) -> bool {
    value.len() >= suffix.len() && eq_ci(value.subrange(value.len() - suffix.len(), value.len() as int), suffix)
}

/// Bytes of a string literal.
pub open spec fn lit(s: &str) -> Seq<u8> {
    s.spec_bytes()
}

/// Separators between name segments: `.`, `_`, `-`, `:` and `/`.
pub open spec fn is_separator(b: u8) -> bool {
    b == 46 || b == 95 || b == 45 || b == 58 || b == 47
}

/// `name[i..j]` is a non-empty maximal run of non-separator bytes.
pub open spec fn is_segment(name: Seq<u8>, i: int, j: int) -> bool {
    &&& 0 <= i < j <= name.len()
    &&& (i == 0 || is_separator(name[i - 1]))
    &&& (j == name.len() || is_separator(name[j]))
    &&& forall|k: int| i <= k < j ==> !is_separator(#[trigger] name[k])
}

/// Names whose presence anywhere calls for full redaction.
pub open spec fn is_credential_name(name: Seq<u8>) -> bool {
    contains_ci(name, lit("password")) || contains_ci(name, lit("passphrase"))
        || contains_ci(name, lit("secret")) || contains_ci(name, lit("authorization"))
        || contains_ci(name, lit("cookie")) || contains_ci(name, lit("session"))
        || contains_ci(name, lit("jwt")) || contains_ci(name, lit("bearer"))
        || contains_ci(name, lit("otp")) || contains_ci(name, lit("pin"))
}

/// A segment that marks a token or key, given whether the whole name
/// mentions "token" and "key".
pub open spec fn is_hash_segment(seg: Seq<u8>, has_token: bool, has_key: bool) -> bool {
    eq_ci(seg, lit("token")) || eq_ci(seg, lit("apikey")) || (eq_ci(seg, lit("api")) && has_key)
        || ends_with_ci(seg, lit("token")) || eq_ci(seg, lit("key"))
        || (eq_ci(seg, lit("access")) && has_token) || (eq_ci(seg, lit("refresh")) && has_token)
}

/// A segment that marks a card or account.
pub open spec fn is_card_segment(seg: Seq<u8>) -> bool {
    eq_ci(seg, lit("card")) || eq_ci(seg, lit("iban")) || eq_ci(seg, lit("pan"))
        || eq_ci(seg, lit("account")) || eq_ci(seg, lit("acct"))
}

/// A segment that marks a number or identifier.
pub open spec fn is_number_segment(seg: Seq<u8>) -> bool {
    eq_ci(seg, lit("number")) || eq_ci(seg, lit("no")) || eq_ci(seg, lit("id"))
}

/// Some segment of `name` is a token or key marker.
pub open spec fn has_hash_segment(name: Seq<u8>) -> bool {
    exists|i: int, j: int| #[trigger] is_segment(name, i, j)
        && is_hash_segment(name.subrange(i, j), contains_ci(name, lit("token")), contains_ci(name, lit("key")))
}

/// Some segment of `name` is a card marker.
pub open spec fn has_card_segment(name: Seq<u8>) -> bool {
    exists|i: int, j: int| #[trigger] is_segment(name, i, j) && is_card_segment(name.subrange(i, j))
}

/// Some segment of `name` is a number marker.
pub open spec fn has_number_segment(name: Seq<u8>) -> bool {
    exists|i: int, j: int| #[trigger] is_segment(name, i, j) && is_number_segment(name.subrange(i, j))
}

/// The redaction policy a field named `name` gets by default.
pub open spec fn default_redaction(name: Seq<u8>) -> FieldRedaction {
    if is_credential_name(name) {
        FieldRedaction::Redact
    } else if has_hash_segment(name) {
        FieldRedaction::Hash
    } else if has_card_segment(name) && has_number_segment(name) {
        FieldRedaction::Last4
    } else {
        FieldRedaction::Preserve
    }
}

/// ASCII case-insensitive equality of two byte ranges.
fn eq_ascii_case_insensitive_bytes(left: &[u8], lstart: usize, right: &[u8]) -> (r: bool)
    requires
        lstart + right@.len() <= left@.len(),
    ensures
        r == eq_ci(left@.subrange(lstart as int, lstart + right@.len()), right@),
{
    let n = right.len();
    let llen = left.len();
    let mut i: usize = 0;
    while i < n
        invariant
            n == right@.len(),
            lstart + n <= left@.len(),
            llen == left@.len(),
            i <= n,
            forall|k: int| 0 <= k < i ==> #[trigger] lower(left@[lstart + k]) == lower(right@[k]),
        decreases n - i,
    {
        let a = left[lstart + i];
        let b = right[i];
        let la: u8 = if 65u8 <= a && a <= 90u8 { a + 32 } else { a };
        let lb: u8 = if 65u8 <= b && b <= 90u8 { b + 32 } else { b };
        if la != lb {
            proof {
                let sub = left@.subrange(lstart as int, lstart + n);
                assert(lower(sub[i as int]) != lower(right@[i as int]));
            }
            return false;
        }
        i += 1;
    }
    proof {
        let sub = left@.subrange(lstart as int, lstart + n);
        assert forall|k: int| 0 <= k < sub.len() implies #[trigger] lower(sub[k]) == lower(right@[k]) by {
            assert(sub[k] == left@[lstart + k]);
        }
    }
    true
}

/// Case-insensitive equality of a byte range with a whole byte string.
fn range_eq_ci(name: &[u8], start: usize, end: usize, word: &[u8]) -> (r: bool)
    requires
        start <= end <= name@.len(),
    ensures
        r == eq_ci(name@.subrange(start as int, end as int), word@),
{
    if end - start != word.len() {
        return false;
    }
    eq_ascii_case_insensitive_bytes(name, start, word)
}

/// Case-insensitive suffix test on a byte range.
fn range_ends_with_ci(name: &[u8], start: usize, end: usize, suffix: &[u8]) -> (r: bool)
    requires
        start <= end <= name@.len(),
    ensures
        r == ends_with_ci(name@.subrange(start as int, end as int), suffix@),
{
    let ghost seg = name@.subrange(start as int, end as int);
    if end - start < suffix.len() {
        return false;
    }
    let s = end - suffix.len();
    let r = eq_ascii_case_insensitive_bytes(name, s, suffix);
    proof {
        assert(seg.subrange(seg.len() - suffix@.len(), seg.len() as int) =~= name@.subrange(s as int, end as int));
    }
    r
}

/// Whether `value` ends with `suffix`, ignoring ASCII case.
pub fn ends_with_ascii_case_insensitive(value: &str, suffix: &str) -> (r: bool)
    ensures
        r == ends_with_ci(value.spec_bytes(), suffix.spec_bytes()),
{
    let v = value.as_bytes();
    let r = range_ends_with_ci(v, 0, v.len(), suffix.as_bytes());
    proof { assert(v@.subrange(0, v@.len() as int) =~= v@); }
    r
}

/// Whether `needle` occurs in `haystack`, ignoring ASCII case.
pub fn contains_ascii_case_insensitive(haystack: &str, needle: &str) -> (r: bool)
    ensures
        r == contains_ci(haystack.spec_bytes(), needle.spec_bytes()),
{
    let h = haystack.as_bytes();
    let n = needle.as_bytes();
    if n.len() == 0 {
        return true;
    }
    if h.len() < n.len() {
        return false;
    }
    let hlen = h.len();
    let last = hlen - n.len();
    let mut i: usize = 0;
    while i <= last
        invariant
            h@ == haystack.spec_bytes(),
            n@ == needle.spec_bytes(),
            n@.len() > 0,
            last == h@.len() - n@.len(),
            hlen == h@.len(),
            i <= last + 1,
            forall|k: int| 0 <= k < i ==> !#[trigger] eq_ci(h@.subrange(k, k + n@.len()), n@),
        decreases last + 1 - i,
    {
        if eq_ascii_case_insensitive_bytes(h, i, n) {
            return true;
        }
        i += 1;
    }
    false
}

/// Whether the byte string contains `needle` (as bytes), ignoring case.
fn bytes_contains_ci(h: &[u8], needle: &str) -> (r: bool)
    ensures
        r == contains_ci(h@, needle.spec_bytes()),
{
    let n = needle.as_bytes();
    if n.len() == 0 {
        return true;
    }
    if h.len() < n.len() {
        return false;
    }
    let hlen = h.len();
    let last = hlen - n.len();
    let mut i: usize = 0;
    while i <= last
        invariant
            n@ == needle.spec_bytes(),
            n@.len() > 0,
            last == h@.len() - n@.len(),
            hlen == h@.len(),
            i <= last + 1,
            forall|k: int| 0 <= k < i ==> !#[trigger] eq_ci(h@.subrange(k, k + n@.len()), n@),
        decreases last + 1 - i,
    {
        if eq_ascii_case_insensitive_bytes(h, i, n) {
            return true;
        }
        i += 1;
    }
    false
}

/// A segment ending at or after `start` in a region free of separators
/// from `start` to `i` is exactly `start..i`.
proof fn lemma_segment_pinned(b: Seq<u8>, start: int, i: int, p: int, q: int)
    requires
        0 <= start <= i <= b.len(),
        start == 0 || is_separator(b[start - 1]),
        forall|k: int| start <= k < i ==> !is_separator(#[trigger] b[k]),
        is_segment(b, p, q),
        start <= q <= i,
    ensures
        p == start,
        q == i,
{
    if p < start {
        assert(!is_separator(b[start - 1]));
    }
    if p > start {
        assert(!is_separator(b[p - 1]));
    }
    if q < i {
        assert(!is_separator(b[q]));
    }
}

fn seg_is_hash(b: &[u8], s: usize, e: usize, has_token: bool, has_key: bool) -> (r: bool)
    requires
        s <= e <= b@.len(),
    ensures
        r == is_hash_segment(b@.subrange(s as int, e as int), has_token, has_key),
{
    range_eq_ci(b, s, e, "token".as_bytes()) || range_eq_ci(b, s, e, "apikey".as_bytes())
        || (range_eq_ci(b, s, e, "api".as_bytes()) && has_key)
        || range_ends_with_ci(b, s, e, "token".as_bytes()) || range_eq_ci(b, s, e, "key".as_bytes())
        || (range_eq_ci(b, s, e, "access".as_bytes()) && has_token)
        || (range_eq_ci(b, s, e, "refresh".as_bytes()) && has_token)
}

fn seg_is_card(b: &[u8], s: usize, e: usize) -> (r: bool)
    requires
        s <= e <= b@.len(),
    ensures
        r == is_card_segment(b@.subrange(s as int, e as int)),
{
    range_eq_ci(b, s, e, "card".as_bytes()) || range_eq_ci(b, s, e, "iban".as_bytes())
        || range_eq_ci(b, s, e, "pan".as_bytes()) || range_eq_ci(b, s, e, "account".as_bytes())
        || range_eq_ci(b, s, e, "acct".as_bytes())
}

fn seg_is_number(b: &[u8], s: usize, e: usize) -> (r: bool)
    requires
        s <= e <= b@.len(),
    ensures
        r == is_number_segment(b@.subrange(s as int, e as int)),
{
    range_eq_ci(b, s, e, "number".as_bytes()) || range_eq_ci(b, s, e, "no".as_bytes())
        || range_eq_ci(b, s, e, "id".as_bytes())
}

fn is_separator_byte(c: u8) -> (r: bool)
    ensures
        r == is_separator(c),
{
    c == 46u8 || c == 95u8 || c == 45u8 || c == 58u8 || c == 47u8
}

/// The redaction policy a field gets from its name alone.
pub fn infer_default_redaction(name: &str) -> (r: FieldRedaction)
    ensures
        r == default_redaction(name.spec_bytes()),
{
    let b = name.as_bytes();
    if bytes_contains_ci(b, "password") || bytes_contains_ci(b, "passphrase")
        || bytes_contains_ci(b, "secret") || bytes_contains_ci(b, "authorization")
        || bytes_contains_ci(b, "cookie") || bytes_contains_ci(b, "session")
        || bytes_contains_ci(b, "jwt") || bytes_contains_ci(b, "bearer")
        || bytes_contains_ci(b, "otp") || bytes_contains_ci(b, "pin")
    {
        return FieldRedaction::Redact;
    }
    let has_token = bytes_contains_ci(b, "token");
    let has_key = bytes_contains_ci(b, "key");
    let ghost bs = b@;
    let len = b.len();
    let mut card_like = false;
    let mut number_like = false;
    let mut start: usize = 0;
    let mut i: usize = 0;
    while i < len
        invariant
            bs == b@,
            bs == name.spec_bytes(),
            len == bs.len(),
            !is_credential_name(bs),
            has_token == contains_ci(bs, lit("token")),
            has_key == contains_ci(bs, lit("key")),
            start <= i <= len,
            start == 0 || is_separator(bs[start - 1]),
            forall|k: int| start <= k < i ==> !is_separator(#[trigger] bs[k]),
            forall|p: int, q: int| #[trigger] is_segment(bs, p, q) && q < start
                ==> !is_hash_segment(bs.subrange(p, q), has_token, has_key),
            card_like == exists|p: int, q: int| #[trigger] is_segment(bs, p, q) && q < start
                && is_card_segment(bs.subrange(p, q)),
            number_like == exists|p: int, q: int| #[trigger] is_segment(bs, p, q) && q < start
                && is_number_segment(bs.subrange(p, q)),
        decreases len - i,
    {
        if is_separator_byte(b[i]) {
            let ghost old_start = start as int;
            let ghost old_card = card_like;
            let ghost old_number = number_like;
            if start < i {
                assert(is_segment(bs, start as int, i as int));
                if seg_is_hash(b, start, i, has_token, has_key) {
                    assert(has_hash_segment(bs));
                    return FieldRedaction::Hash;
                }
                if seg_is_card(b, start, i) {
                    card_like = true;
                }
                if seg_is_number(b, start, i) {
                    number_like = true;
                }
            }
            proof {
                assert forall|p: int, q: int| #[trigger] is_segment(bs, p, q) && q < i + 1 && q >= old_start
                    implies p == old_start && q == i by {
                    lemma_segment_pinned(bs, old_start, i as int, p, q);
                }
                if card_like {
                    if !old_card {
                        assert(is_segment(bs, old_start, i as int) && (i as int) < i + 1
                            && is_card_segment(bs.subrange(old_start, i as int)));
                    }
                } else {
                    assert forall|p: int, q: int| #[trigger] is_segment(bs, p, q) && q < i + 1
                        implies !is_card_segment(bs.subrange(p, q)) by {
                        if q >= old_start {
                            lemma_segment_pinned(bs, old_start, i as int, p, q);
                        }
                    }
                }
                if number_like {
                    if !old_number {
                        assert(is_segment(bs, old_start, i as int) && (i as int) < i + 1
                            && is_number_segment(bs.subrange(old_start, i as int)));
                    }
                } else {
                    assert forall|p: int, q: int| #[trigger] is_segment(bs, p, q) && q < i + 1
                        implies !is_number_segment(bs.subrange(p, q)) by {
                        if q >= old_start {
                            lemma_segment_pinned(bs, old_start, i as int, p, q);
                        }
                    }
                }
                assert forall|p: int, q: int| #[trigger] is_segment(bs, p, q) && q < i + 1
                    implies !is_hash_segment(bs.subrange(p, q), has_token, has_key) by {
                    if q >= old_start {
                        lemma_segment_pinned(bs, old_start, i as int, p, q);
                    }
                }
            }
            start = i + 1;
        }
        i += 1;
    }
    let ghost old_start = start as int;
    let ghost old_card = card_like;
    let ghost old_number = number_like;
    if start < len {
        assert(is_segment(bs, start as int, len as int));
        if seg_is_hash(b, start, len, has_token, has_key) {
            assert(has_hash_segment(bs));
            return FieldRedaction::Hash;
        }
        if seg_is_card(b, start, len) {
            card_like = true;
        }
        if seg_is_number(b, start, len) {
            number_like = true;
        }
    }
    proof {
        assert forall|p: int, q: int| #[trigger] is_segment(bs, p, q) && q >= old_start
            implies p == old_start && q == len by {
            lemma_segment_pinned(bs, old_start, len as int, p, q);
        }
        assert(!has_hash_segment(bs));
        if card_like {
            if !old_card {
                assert(is_segment(bs, old_start, len as int) && is_card_segment(bs.subrange(old_start, len as int)));
            }
        } else {
            assert forall|p: int, q: int| #[trigger] is_segment(bs, p, q)
                implies !is_card_segment(bs.subrange(p, q)) by {
                if q >= old_start {
                    lemma_segment_pinned(bs, old_start, len as int, p, q);
                }
            }
        }
        if number_like {
            if !old_number {
                assert(is_segment(bs, old_start, len as int) && is_number_segment(bs.subrange(old_start, len as int)));
            }
        } else {
            assert forall|p: int, q: int| #[trigger] is_segment(bs, p, q)
                implies !is_number_segment(bs.subrange(p, q)) by {
                if q >= old_start {
                    lemma_segment_pinned(bs, old_start, len as int, p, q);
                }
            }
        }
    }
    if card_like && number_like {
        FieldRedaction::Last4
    } else {
        FieldRedaction::Preserve
    }
}

} // verus!
verus! {

/// A name with no credential word and no token or key segment is masked to
/// its last four characters exactly when one of its segments names a card
/// or account (`card`, `iban`, `pan`, `account`, `acct`) and one of its
/// segments names a number (`number`, `no`, `id`), in any ASCII case;
/// otherwise it is preserved. A card or account segment alone (a field
/// named `account`) is preserved.
pub proof fn law_last4_needs_card_and_number_segments(name: Seq<u8>)
    requires
        !is_credential_name(name),
        !has_hash_segment(name),
    ensures
        ({
            let card = exists|i: int, j: int| #[trigger] is_segment(name, i, j) && {
                let s = name.subrange(i, j);
                eq_ci(s, lit("card")) || eq_ci(s, lit("iban")) || eq_ci(s, lit("pan")) || eq_ci(s, lit("account"))
                    || eq_ci(s, lit("acct"))
            };
            let number = exists|i: int, j: int| #[trigger] is_segment(name, i, j) && {
                let s = name.subrange(i, j);
                eq_ci(s, lit("number")) || eq_ci(s, lit("no")) || eq_ci(s, lit("id"))
            };
            &&& default_redaction(name) == FieldRedaction::Last4 <==> card && number
            &&& default_redaction(name) == FieldRedaction::Preserve <==> !(card && number)
        }),
{
}

} // verus!
