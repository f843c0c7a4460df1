//! Exact textual forms used by the renderers: decimal integers, lowercase
//! hex, durations, last-four masking and little-endian bytes.

use vstd::prelude::*;
use vstd::string::StrSliceExecFns;

use crate::text::{push_char, push_str};

verus! {

/// The decimal digit character for `d < 10`.
pub open spec fn digit_char(d: nat) -> char {
    if d == 0 { '0' } else if d == 1 { '1' } else if d == 2 { '2' } else if d == 3 { '3' }
    else if d == 4 { '4' } else if d == 5 { '5' } else if d == 6 { '6' } else if d == 7 { '7' }
    else if d == 8 { '8' } else { '9' }
}

/// The lowercase hex digit character for `d < 16`.
pub open spec fn hex_char(d: nat) -> char {
    if d < 10 { digit_char(d) } else if d == 10 { 'a' } else if d == 11 { 'b' } else if d == 12 { 'c' }
    else if d == 13 { 'd' } else if d == 14 { 'e' } else { 'f' }
}

/// Decimal representation of a natural number, without leading zeros.
pub open spec fn decimal(n: nat) -> Seq<char>
    decreases n,
{
    if n < 10 {
        seq![digit_char(n)]
    } else {
        decimal(n / 10).push(digit_char(n % 10))
    }
}

/// Decimal representation of an integer, with a leading `-` when negative.
pub open spec fn signed_decimal(n: int) -> Seq<char> {
    if n < 0 { seq!['-'] + decimal((-n) as nat) } else { decimal(n as nat) }
}

/// Lowercase hex representation of bytes, two characters per byte.
pub open spec fn hex_lower(b: Seq<u8>) -> Seq<char>
    decreases b.len(),
{
    if b.len() == 0 {
        Seq::empty()
    } else {
        hex_lower(b.drop_last()).push(hex_char((b.last() / 16) as nat)).push(hex_char((b.last() % 16) as nat))
    }
}

/// The `n` least significant hex digits of `x`, most significant first.
pub open spec fn hex_digits(x: nat, n: nat) -> Seq<char>
    decreases n,
{
    if n == 0 {
        Seq::empty()
    } else {
        hex_digits(x / 16, (n - 1) as nat).push(hex_char(x % 16))
    }
}

/// `hex_digits(x, n)` has `n` characters.
pub proof fn lemma_hex_digits_len(x: nat, n: nat)
    ensures
        hex_digits(x, n).len() == n,
    decreases n,
{
    if n > 0 {
        lemma_hex_digits_len(x / 16, (n - 1) as nat);
    }
}

/// Lowercase hyphenated text of a UUID given as its 128-bit value: the 32
/// hex digits grouped 8-4-4-4-12.
pub open spec fn uuid_text(bits: u128) -> Seq<char> {
    let h = hex_digits(bits as nat, 32);
    h.subrange(0, 8) + seq!['-'] + h.subrange(8, 12) + seq!['-'] + h.subrange(12, 16) + seq!['-']
        + h.subrange(16, 20) + seq!['-'] + h.subrange(20, 32)
}

/// `n` characters `c`.
pub open spec fn repeat_char(c: char, n: nat) -> Seq<char> {
    Seq::new(n, |i: int| c)
}

/// Masks all but the trailing characters with `*`: four are kept, or one
/// when the text has at most four characters.
pub open spec fn mask_last4_text(s: Seq<char>) -> Seq<char> {
    if s.len() == 0 {
        Seq::empty()
    } else {
        let keep: nat = if s.len() <= 4 { 1 } else { 4 };
        let mask_len = (s.len() - keep) as nat;
        repeat_char('*', mask_len) + s.skip(mask_len as int)
    }
}

/// The `n` least significant base-256 digits of `x`, least significant
/// first.
pub open spec fn le_bytes(x: nat, n: nat) -> Seq<u8>
    decreases n,
{
    if n == 0 {
        Seq::empty()
    } else {
        seq![(x % 256) as u8] + le_bytes(x / 256, (n - 1) as nat)
    }
}

/// Strips trailing decimal zeros from `f`, lowering the width by one for
/// each.
pub open spec fn trim_fraction(f: nat, w: nat) -> (nat, nat)
    decreases f,
{
    if f > 0 && f % 10 == 0 && w > 0 {
        trim_fraction(f / 10, (w - 1) as nat)
    } else {
        (f, w)
    }
}

/// Decimal form of `v` left-padded with zeros to at least `w` characters.
pub open spec fn zero_padded(v: nat, w: nat) -> Seq<char> {
    let d = decimal(v);
    if d.len() < w { repeat_char('0', (w - d.len()) as nat) + d } else { d }
}

/// Text of a duration: whole seconds, then the fraction without trailing
/// zeros when there is one, then `s` (for example `0.0015s`, `2s`).
pub open spec fn duration_text(secs: u64, nanos: u32) -> Seq<char> {
    if nanos == 0 {
        decimal(secs as nat).push('s')
    } else {
        let (f, w) = trim_fraction(nanos as nat, 9);
        (decimal(secs as nat).push('.') + zero_padded(f, w)).push('s')
    }
}

/// Decimal digit character.
pub fn digit(d: u64) -> (c: char)
    requires
        d < 10,
    ensures
        c == digit_char(d as nat),
{
    if d == 0 { '0' } else if d == 1 { '1' } else if d == 2 { '2' } else if d == 3 { '3' }
    else if d == 4 { '4' } else if d == 5 { '5' } else if d == 6 { '6' } else if d == 7 { '7' }
    else if d == 8 { '8' } else { '9' }
}

/// Lowercase hex digit character.
pub fn hex_digit(d: u8) -> (c: char)
    requires
        d < 16,
    ensures
        c == hex_char(d as nat),
{
    if d < 10 { digit(d as u64) } else if d == 10 { 'a' } else if d == 11 { 'b' } else if d == 12 { 'c' }
    else if d == 13 { 'd' } else if d == 14 { 'e' } else { 'f' }
}

/// Appends the decimal digits of `n`.
pub fn push_decimal(out: &mut String, n: u64)
    ensures
        final(out)@ == old(out)@ + decimal(n as nat),
{
    let mut v = n;
    let mut digits: Vec<char> = Vec::new();
    while v >= 10
        invariant
            decimal(n as nat) == decimal(v as nat) + digits@,
        decreases v,
    {
        let d = digit(v % 10);
        digits.insert(0, d);
        v = v / 10;
        assert(decimal(n as nat) == decimal(v as nat) + digits@) by {
            assert(digits@ =~= seq![d] + digits@.drop_first());
        }
    }
    let ghost base = out@;
    push_char(out, digit(v));
    let mut k: usize = 0;
    while k < digits.len()
        invariant
            out@ == base + decimal(v as nat) + digits@.take(k as int),
            k <= digits@.len(),
            decimal(n as nat) == decimal(v as nat) + digits@,
        decreases digits@.len() - k,
    {
        push_char(out, digits[k]);
        assert(digits@.take(k + 1) =~= digits@.take(k as int).push(digits@[k as int]));
        k += 1;
    }
    assert(digits@.take(k as int) =~= digits@);
    assert(out@ =~= base + decimal(n as nat));
}

/// Appends the decimal form of a signed integer.
pub fn push_signed_decimal(out: &mut String, n: i64)
    ensures
        final(out)@ == old(out)@ + signed_decimal(n as int),
{
    if n < 0 {
        let ghost base = out@;
        push_char(out, '-');
        let magnitude: u64 = if n == i64::MIN { 9223372036854775808u64 } else { (-n) as u64 };
        push_decimal(out, magnitude);
        assert(out@ =~= base + signed_decimal(n as int));
    } else {
        push_decimal(out, n as u64);
    }
}

/// Decimal text of an unsigned integer.
pub fn u64_to_string(n: u64) -> (r: String)
    ensures
        r@ == decimal(n as nat),
{
    let mut s = String::new();
    push_decimal(&mut s, n);
    assert(s@ =~= decimal(n as nat));
    s
}

/// Decimal text of a signed integer.
pub fn i64_to_string(n: i64) -> (r: String)
    ensures
        r@ == signed_decimal(n as int),
{
    let mut s = String::new();
    push_signed_decimal(&mut s, n);
    assert(s@ =~= signed_decimal(n as int));
    s
}

/// Appends `count` copies of `c`.
pub fn push_repeat(out: &mut String, c: char, count: usize)
    ensures
        final(out)@ == old(out)@ + repeat_char(c, count as nat),
{
    let ghost base = out@;
    let mut i: usize = 0;
    while i < count
        invariant
            i <= count,
            out@ == base + repeat_char(c, i as nat),
        decreases count - i,
    {
        push_char(out, c);
        assert(repeat_char(c, (i + 1) as nat) =~= repeat_char(c, i as nat).push(c));
        i += 1;
    }
}

/// Lowercase hex text of bytes.
pub fn bytes_to_hex(bytes: &[u8]) -> (r: String)
    ensures
        r@ == hex_lower(bytes@),
{
    let mut s = String::new();
    let mut i: usize = 0;
    while i < bytes.len()
        invariant
            i <= bytes@.len(),
            s@ == hex_lower(bytes@.take(i as int)),
        decreases bytes@.len() - i,
    {
        let b = bytes[i];
        push_char(&mut s, hex_digit(b / 16));
        push_char(&mut s, hex_digit(b % 16));
        assert(bytes@.take(i + 1).drop_last() =~= bytes@.take(i as int));
        i += 1;
    }
    assert(bytes@.take(i as int) =~= bytes@);
    s
}

/// Lowercase hyphenated text of a UUID given as its 128-bit value.
pub fn uuid_to_string(bits: u128) -> (r: String)
    ensures
        r@ == uuid_text(bits),
{
    let mut digits: Vec<char> = Vec::new();
    let mut k: usize = 0;
    while k < 32
        invariant
            k <= 32,
            digits@.len() == k,
        decreases 32 - k,
    {
        digits.push('0');
        k += 1;
    }
    let ghost h = hex_digits(bits as nat, 32);
    let mut v: u128 = bits;
    let mut i: usize = 0;
    assert(digits@.subrange(32, 32) =~= Seq::<char>::empty());
    while i < 32
        invariant
            i <= 32,
            digits@.len() == 32,
            h == hex_digits(bits as nat, 32),
            h == hex_digits(v as nat, (32 - i) as nat) + digits@.subrange(32 - i, 32),
        decreases 32 - i,
    {
        let d = (v % 16) as u8;
        let c = hex_digit(d);
        proof {
            let m = (32 - i) as nat;
            assert(hex_digits(v as nat, m) == hex_digits((v / 16) as nat, (m - 1) as nat).push(hex_char((v % 16) as nat)));
        }
        digits.set(31 - i, c);
        proof {
            assert(digits@.subrange(31 - i, 32) =~= seq![c] + digits@.subrange(32 - i, 32));
        }
        v = v / 16;
        i += 1;
    }
    assert(hex_digits(v as nat, 0) =~= Seq::<char>::empty());
    assert(digits@.subrange(0, 32) =~= digits@);
    proof { lemma_hex_digits_len(bits as nat, 32); }
    let mut out = String::new();
    let mut j: usize = 0;
    while j < 32
        invariant
            j <= 32,
            digits@ == h,
            h.len() == 32,
            h == hex_digits(bits as nat, 32),
            out@ == (if j <= 8 { h.subrange(0, j as int) }
                else if j <= 12 { h.subrange(0, 8) + seq!['-'] + h.subrange(8, j as int) }
                else if j <= 16 { h.subrange(0, 8) + seq!['-'] + h.subrange(8, 12) + seq!['-'] + h.subrange(12, j as int) }
                else if j <= 20 { h.subrange(0, 8) + seq!['-'] + h.subrange(8, 12) + seq!['-'] + h.subrange(12, 16) + seq!['-'] + h.subrange(16, j as int) }
                else { h.subrange(0, 8) + seq!['-'] + h.subrange(8, 12) + seq!['-'] + h.subrange(12, 16) + seq!['-'] + h.subrange(16, 20) + seq!['-'] + h.subrange(20, j as int) }),
        decreases 32 - j,
    {
        if j == 8 || j == 12 || j == 16 || j == 20 {
            push_char(&mut out, '-');
        }
        push_char(&mut out, digits[j]);
        proof {
            assert(h.subrange(0, j + 1) =~= h.subrange(0, j as int).push(h[j as int]));
            if j >= 8 {
                assert(h.subrange(8, j + 1) =~= h.subrange(8, j as int).push(h[j as int]));
            }
            if j >= 12 {
                assert(h.subrange(12, j + 1) =~= h.subrange(12, j as int).push(h[j as int]));
            }
            if j >= 16 {
                assert(h.subrange(16, j + 1) =~= h.subrange(16, j as int).push(h[j as int]));
            }
            if j >= 20 {
                assert(h.subrange(20, j + 1) =~= h.subrange(20, j as int).push(h[j as int]));
            }
            assert(h.subrange(8, 8) =~= Seq::<char>::empty());
            assert(h.subrange(12, 12) =~= Seq::<char>::empty());
            assert(h.subrange(16, 16) =~= Seq::<char>::empty());
            assert(h.subrange(20, 20) =~= Seq::<char>::empty());
        }
        j += 1;
    }
    assert(out@ =~= uuid_text(bits));
    out
}

/// Replaces all but the trailing characters of `value` with `*`.
///
/// Values of four characters or fewer keep only the last character.
pub fn mask_last4(value: &str) -> (r: String)
    ensures
        r@ == mask_last4_text(value@),
{
    let total = value.unicode_len();
    let mut masked = String::new();
    if total == 0 {
        return masked;
    }
    let keep: usize = if total <= 4 { 1 } else { 4 };
    let mask_len = total - keep;
    push_repeat(&mut masked, '*', mask_len);
    let ghost prefix = masked@;
    let mut i = mask_len;
    while i < total
        invariant
            total == value@.len(),
            mask_len <= i <= total,
            masked@ == prefix + value@.subrange(mask_len as int, i as int),
        decreases total - i,
    {
        push_char(&mut masked, value.get_char(i));
        assert(value@.subrange(mask_len as int, i + 1)
            =~= value@.subrange(mask_len as int, i as int).push(value@[i as int]));
        i += 1;
    }
    assert(value@.subrange(mask_len as int, total as int) =~= value@.skip(mask_len as int));
    masked
}

/// The `n` least significant little-endian bytes of `x`.
pub fn push_le_bytes(out: &mut Vec<u8>, x: u64, n: usize)
    ensures
        final(out)@ == old(out)@ + le_bytes(x as nat, n as nat),
{
    let ghost base = out@;
    let mut v = x;
    let mut i: usize = 0;
    while i < n
        invariant
            i <= n,
            out@ + le_bytes(v as nat, (n - i) as nat) == base + le_bytes(x as nat, n as nat),
        decreases n - i,
    {
        let byte = (v % 256) as u8;
        proof {
            let rest = le_bytes(v as nat, (n - i) as nat);
            assert(rest =~= seq![byte] + le_bytes((v / 256) as nat, (n - i - 1) as nat));
            assert(out@.push(byte) + le_bytes((v / 256) as nat, (n - i - 1) as nat) =~= out@ + rest);
        }
        out.push(byte);
        v = v / 256;
        i += 1;
    }
    assert(le_bytes(v as nat, 0) =~= Seq::<u8>::empty());
    assert(out@ =~= base + le_bytes(x as nat, n as nat));
}

/// Whole seconds and the fraction digits of a duration: `None` when the
/// nanoseconds are zero, otherwise the nanoseconds with trailing zeros
/// removed and the number of digits that remain significant.
pub fn duration_parts(secs: u64, nanos: u32) -> (r: (u64, Option<(u32, u8)>))
    ensures
        r.0 == secs,
        nanos == 0 ==> r.1 is None,
        nanos != 0 ==> (r.1 matches Some(p) && (p.0 as nat, p.1 as nat) == trim_fraction(nanos as nat, 9)),
{
    if nanos == 0 {
        return (secs, None);
    }
    let mut fraction = nanos;
    let mut width: u8 = 9;
    while fraction % 10 == 0 && width > 0
        invariant
            fraction > 0,
            width <= 9,
            trim_fraction(fraction as nat, width as nat) == trim_fraction(nanos as nat, 9),
        decreases fraction,
    {
        fraction = fraction / 10;
        width = width - 1;
    }
    (secs, Some((fraction, width)))
}

/// Text of a duration given as whole seconds and nanoseconds.
pub fn duration_parts_to_string(secs: u64, nanos: u32) -> (r: String)
    ensures
        r@ == duration_text(secs, nanos),
{
    let (s, fraction) = duration_parts(secs, nanos);
    let mut out = String::new();
    push_decimal(&mut out, s);
    match fraction {
        None => {
            push_char(&mut out, 's');
        }
        Some((value, width)) => {
            push_char(&mut out, '.');
            let digits = u64_to_string(value as u64);
            let n = digits.unicode_len();
            if n < width as usize {
                push_repeat(&mut out, '0', width as usize - n);
            }
            push_str(&mut out, digits.as_str());
            push_char(&mut out, 's');
        }
    }
    assert(out@ =~= duration_text(secs, nanos));
    out
}

/// Masking keeps the length of the text, shows its last four characters
/// (the last one for texts of at most four) and hides all others behind
/// `*`.
pub proof fn law_mask_last4_shape(s: Seq<char>)
    ensures
        mask_last4_text(s).len() == s.len(),
        s.len() > 4 ==> forall|i: int| s.len() - 4 <= i < s.len() ==> #[trigger] mask_last4_text(s)[i] == s[i],
        s.len() > 4 ==> forall|i: int| 0 <= i < s.len() - 4 ==> #[trigger] mask_last4_text(s)[i] == '*',
        0 < s.len() <= 4 ==> mask_last4_text(s)[s.len() - 1] == s[s.len() - 1],
        0 < s.len() <= 4 ==> forall|i: int| 0 <= i < s.len() - 1 ==> #[trigger] mask_last4_text(s)[i] == '*',
{
}

/// Lowercase hex text holds two characters per byte, each a digit or a
/// letter from `a` to `f`.
pub proof fn law_hex_lower_shape(b: Seq<u8>)
    ensures
        hex_lower(b).len() == 2 * b.len(),
        forall|i: int| 0 <= i < hex_lower(b).len() ==> {
            let c = #[trigger] hex_lower(b)[i];
            ('0' <= c <= '9' || 'a' <= c <= 'f')
        },
    decreases b.len(),
{
    if b.len() > 0 {
        law_hex_lower_shape(b.drop_last());
        assert forall|d: nat| d < 16 implies ('0' <= #[trigger] hex_char(d) <= '9' || 'a' <= hex_char(d) <= 'f') by {}
        let p = hex_lower(b.drop_last());
        assert forall|i: int| 0 <= i < hex_lower(b).len() implies {
            let c = #[trigger] hex_lower(b)[i];
            ('0' <= c <= '9' || 'a' <= c <= 'f')
        } by {
            if i < p.len() {
                assert(hex_lower(b)[i] == p[i]);
            }
        }
    }
}

} // verus!
