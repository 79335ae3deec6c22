//! Byte-level encoding helpers shared by the protocol engine: decimal
//! rendering of integers, ASCII string-to-byte views, and a constant-time
//! byte comparison.

use vstd::prelude::*;
use vstd::utf8::encode_utf8;

verus! {

/// The decimal digit bytes of `n`, most significant first, as written by the
/// usual decimal rendering of an unsigned integer (no sign, no leading zeros,
/// a single `b'0'` for zero).
pub open spec fn dec_digits(n: nat) -> Seq<u8>
    decreases n,
{
    if n < 10 {
        seq![(48 + n) as u8]
    } else {
        dec_digits(n / 10).push((48 + n % 10) as u8)
    }
}

/// Renders `n` in decimal, most significant digit first.
pub fn u128_to_decimal(n: u128) -> (r: Vec<u8>)
    ensures
        r@ == dec_digits(n as nat),
    decreases n,
{
    if n < 10 {
        let mut v: Vec<u8> = Vec::new();
        v.push(48 + (n as u8));
        assert(v@ =~= dec_digits(n as nat));
        v
    } else {
        let mut v = u128_to_decimal(n / 10);
        v.push(48 + ((n % 10) as u8));
        assert(v@ =~= dec_digits(n as nat));
        v
    }
}

/// Appends the UTF-8 bytes of `s` to `v`.
pub fn push_str_bytes(v: &mut Vec<u8>, s: &str)
    ensures
        final(v)@ == old(v)@ + encode_utf8(s@),
{
    v.extend_from_slice(s.as_bytes());
    assert(v@ =~= old(v)@ + encode_utf8(s@));
}

/// Compares two byte slices for equality.
pub fn bytes_eq(a: &[u8], b: &[u8]) -> (r: bool)
    ensures
        r == (a@ == b@),
{
    if a.len() != b.len() {
        return false;
    }
    let mut i: usize = 0;
    while i < a.len()
        invariant
            a@.len() == b@.len(),
            0 <= i <= a@.len(),
            forall|j: int| 0 <= j < i ==> a@[j] == b@[j],
        decreases a@.len() - i,
    {
        if a[i] != b[i] {
            return false;
        }
        i += 1;
    }
    assert(a@ =~= b@);
    true
}

/// Compares two byte slices for equality in constant time over the length:
/// every byte is inspected, whether or not a mismatch was already seen, so
/// the running time leaks nothing about where two equal-length inputs first
/// differ.
pub fn constant_time_eq(a: &[u8], b: &[u8]) -> (r: bool)
    ensures
        r == (a@ == b@),
{
    if a.len() != b.len() {
        return false;
    }
    let mut diff: u8 = 0;
    let mut i: usize = 0;
    while i < a.len()
        invariant
            a@.len() == b@.len(),
            0 <= i <= a@.len(),
            (diff == 0) <==> (forall|j: int| 0 <= j < i ==> a@[j] == b@[j]),
        decreases a@.len() - i,
    {
        let x = a[i];
        let y = b[i];
        proof {
            assert((diff | (x ^ y)) == 0 <==> diff == 0 && (x ^ y) == 0) by (bit_vector);
            assert((x ^ y) == 0 <==> x == y) by (bit_vector);
        }
        diff = diff | (x ^ y);
        i += 1;
    }
    if diff == 0 {
        assert(a@ =~= b@);
        true
    } else {
        false
    }
}

/// The index of the first occurrence of `x` in `b` at or after `i`, or
/// `b.len()` if there is none.
pub open spec fn first_at(b: Seq<u8>, x: u8, i: int) -> int
    decreases b.len() - i,
{
    if i < 0 || i >= b.len() {
        b.len() as int
    } else if b[i] == x {
        i
    } else {
        first_at(b, x, i + 1)
    }
}

/// The defining properties of [`first_at`]: it lies between `i` and the
/// length, nothing before it matches, and it matches unless it is the length.
pub proof fn lemma_first_at(b: Seq<u8>, x: u8, i: int)
    requires
        0 <= i <= b.len(),
    ensures
        i <= first_at(b, x, i) <= b.len(),
        forall|j: int| i <= j < first_at(b, x, i) ==> b[j] != x,
        first_at(b, x, i) < b.len() ==> b[first_at(b, x, i)] == x,
    decreases b.len() - i,
{
    if i < b.len() && b[i] != x {
        lemma_first_at(b, x, i + 1);
    }
}

/// Finds the first occurrence of `x` in `s` at or after `start`, returning
/// `s.len()` if there is none.
pub fn find_from(s: &[u8], start: usize, x: u8) -> (r: usize)
    requires
        start <= s@.len(),
    ensures
        r == first_at(s@, x, start as int),
{
    let mut i = start;
    while i < s.len()
        invariant
            start <= i <= s@.len(),
            first_at(s@, x, start as int) == first_at(s@, x, i as int),
        decreases s@.len() - i,
    {
        if s[i] == x {
            return i;
        }
        i += 1;
    }
    i
}

/// The index of the first header separator (a colon followed by a space) in
/// `b` at or after `i`, or `b.len()` if there is none.
pub open spec fn first_sep(b: Seq<u8>, i: int) -> int
    decreases b.len() - i,
{
    if i < 0 || i + 1 >= b.len() {
        b.len() as int
    } else if b[i] == 58 && b[i + 1] == 32 {
        i
    } else {
        first_sep(b, i + 1)
    }
}

/// The defining properties of [`first_sep`].
pub proof fn lemma_first_sep(b: Seq<u8>, i: int)
    requires
        0 <= i <= b.len(),
    ensures
        i <= first_sep(b, i) <= b.len(),
        forall|j: int|
            i <= j < first_sep(b, i) && j + 1 < b.len() ==> !(#[trigger] b[j] == 58 && b[j + 1]
                == 32),
        first_sep(b, i) < b.len() ==> first_sep(b, i) + 1 < b.len() && b[first_sep(b, i)] == 58
            && b[first_sep(b, i) + 1] == 32,
    decreases b.len() - i,
{
    if i + 1 < b.len() && !(b[i] == 58 && b[i + 1] == 32) {
        lemma_first_sep(b, i + 1);
    }
}

/// Finds the first header separator (colon, space) in `s`, returning
/// `s.len()` if there is none.
pub fn find_sep(s: &[u8]) -> (r: usize)
    ensures
        r == first_sep(s@, 0),
{
    if s.len() == 0 {
        return 0;
    }
    let mut i: usize = 0;
    while i < s.len() - 1
        invariant
            s@.len() >= 1,
            0 <= i <= s@.len(),
            first_sep(s@, 0) == first_sep(s@, i as int),
        decreases s@.len() - i,
    {
        if s[i] == 58 && s[i + 1] == 32 {
            return i;
        }
        i += 1;
    }
    s.len()
}

/// Whether every byte is an ASCII decimal digit.
pub open spec fn all_digits(s: Seq<u8>) -> bool {
    forall|i: int| 0 <= i < s.len() ==> 48 <= #[trigger] s[i] <= 57
}

/// The integer value of a sequence of ASCII decimal digits, most significant
/// first.
pub open spec fn digits_val(s: Seq<u8>) -> int
    decreases s.len(),
{
    if s.len() == 0 {
        0
    } else {
        digits_val(s.drop_last()) * 10 + (s.last() - 48)
    }
}

/// A digit string's value only grows as more digits are appended.
pub proof fn lemma_digits_val_prefix(s: Seq<u8>, k: int)
    requires
        all_digits(s),
        0 <= k <= s.len(),
    ensures
        0 <= digits_val(s.take(k)) <= digits_val(s),
    decreases s.len() - k,
{
    if k == s.len() {
        assert(s.take(k) =~= s);
        lemma_digits_val_nonneg(s);
    } else {
        lemma_digits_val_prefix(s, k + 1);
        assert(s.take(k + 1).drop_last() =~= s.take(k));
        assert(digits_val(s.take(k + 1)) == digits_val(s.take(k)) * 10 + (s[k] - 48));
        lemma_digits_val_nonneg(s.take(k));
    }
}

/// A digit string's value is non-negative.
pub proof fn lemma_digits_val_nonneg(s: Seq<u8>)
    requires
        all_digits(s),
    ensures
        digits_val(s) >= 0,
    decreases s.len(),
{
    if s.len() > 0 {
        assert(all_digits(s.drop_last()));
        lemma_digits_val_nonneg(s.drop_last());
    }
}

/// The digit part of a decimal text: the text with one optional leading
/// plus sign removed.
pub open spec fn digits_part(s: Seq<u8>) -> Seq<u8> {
    if s.len() > 0 && s[0] == 43 {
        s.skip(1)
    } else {
        s
    }
}

/// How `str::parse::<u128>` reads a byte string: an optional leading plus
/// sign, then at least one ASCII digit, with a value that fits in `u128`;
/// anything else is unparsable.
pub open spec fn u128_text(s: Seq<u8>) -> Option<u128> {
    if digits_part(s).len() > 0 && all_digits(digits_part(s)) && digits_val(digits_part(s))
        <= u128::MAX {
        Some(digits_val(digits_part(s)) as u128)
    } else {
        None
    }
}

/// Parses an unsigned decimal integer exactly as `str::parse::<u128>` would:
/// an optional leading plus sign, then at least one digit, rejecting
/// overflow.
pub fn parse_u128(s: &[u8]) -> (r: Option<u128>)
    ensures
        r == u128_text(s@),
{
    let ghost d: Seq<u8> = digits_part(s@);
    let mut i: usize = 0;
    if s.len() > 0 && s[0] == 43 {
        i = 1;
    }
    assert(d =~= s@.skip(i as int));
    if i == s.len() {
        return None;
    }
    let ghost start = i as int;
    let mut acc: u128 = 0;
    while i < s.len()
        invariant
            d == digits_part(s@),
            d == s@.skip(start),
            start <= i as int <= s@.len(),
            start == 0 || start == 1,
            all_digits(d.take(i - start)),
            acc == digits_val(d.take(i - start)),
        decreases s@.len() - i,
    {
        let c = s[i];
        if c < 48 || c > 57 {
            proof {
                assert(d[i - start] == c);
                assert(!all_digits(d));
            }
            return None;
        }
        let dig = (c - 48) as u128;
        assert(d.take(i - start + 1).drop_last() =~= d.take(i - start));
        assert(digits_val(d.take(i - start + 1)) == digits_val(d.take(i - start)) * 10 + (c - 48));
        if acc > (u128::MAX - dig) / 10 {
            proof {
                assert(acc * 10 + dig > u128::MAX);
                if all_digits(d) {
                    lemma_digits_val_prefix(d, i - start + 1);
                }
            }
            return None;
        }
        acc = acc * 10 + dig;
        i += 1;
    }
    assert(d.take(i - start) =~= d);
    Some(acc)
}

} // verus!
