//! Comparisons of texts and the reading of decimal numbers.

use vstd::prelude::*;
use vstd::string::*;
use vstd::utf8::is_ascii_chars;

verus! {

/// Whether two texts hold the same characters.
///
/// Trusted: calls `==` of `str`, which std documents as equality of the two
/// string slices.
#[verifier::external_body]
pub(crate) fn same_text(left: &str, right: &str) -> (same: bool)
    ensures
        same == (left@ == right@),
{
    left == right
}

/// Whether `text` begins with `prefix`.
///
/// Trusted: calls `str::starts_with` with a string slice as its pattern,
/// which std documents to hold when the pattern matches a prefix of the
/// slice.
#[verifier::external_body]
pub(crate) fn starts_with(text: &str, prefix: &str) -> (begins: bool)
    ensures
        begins == prefix@.is_prefix_of(text@),
{
    text.starts_with(prefix)
}

/// A copy of `text` that owns its characters.
pub(crate) fn owned(text: &str) -> (copy: String)
    ensures
        copy@ == text@,
{
    text.to_owned()
}

/// One of the ten decimal digits.
pub open spec fn is_digit(c: char) -> bool {
    '0' <= c && c <= '9'
}

/// Every character is a decimal digit.
pub open spec fn all_digits(s: Seq<char>) -> bool {
    forall|i: int| 0 <= i < s.len() ==> is_digit(#[trigger] s[i])
}

/// The number that a sequence of decimal digits denotes, the first digit
/// weighing most.
pub open spec fn digits_value(s: Seq<char>) -> nat
    decreases s.len(),
{
    if s.len() == 0 {
        0
    } else {
        (digits_value(s.drop_last()) * 10 + (s.last() as u32 - '0' as u32)) as nat
    }
}

/// The digits of a decimal text: the text itself, or what follows its `+`.
pub open spec fn unsigned_part(s: Seq<char>) -> Seq<char> {
    if s.len() > 0 && s[0] == '+' {
        s.drop_first()
    } else {
        s
    }
}

/// The unsigned 16-bit number that a text denotes: an optional `+`, then one
/// or more decimal digits and nothing else, whose value is at most 65535.
pub open spec fn decimal_u16(s: Seq<char>) -> Option<u16> {
    let digits = unsigned_part(s);
    if digits.len() > 0 && all_digits(digits) && digits_value(digits) <= u16::MAX {
        Some(digits_value(digits) as u16)
    } else {
        None
    }
}

/// A longer run of digits denotes no smaller a number than its beginning.
pub proof fn lemma_digits_value_grows(s: Seq<char>, n: int)
    requires
        0 <= n <= s.len(),
        all_digits(s),
    ensures
        digits_value(s.take(n)) <= digits_value(s),
    decreases s.len() - n,
{
    if n == s.len() {
        assert(s.take(n) =~= s);
    } else {
        lemma_digits_value_grows(s, n + 1);
        let longer = s.take(n + 1);
        assert(longer.drop_last() =~= s.take(n));
        assert(is_digit(s[n]));
        assert(longer.last() == s[n]);
    }
}

/// Reads an unsigned 16-bit number from its decimal text.
pub fn parse_u16(text: &str) -> (number: Option<u16>)
    ensures
        number == decimal_u16(text@),
{
    if !text.is_ascii() {
        proof {
            lemma_non_ascii_is_no_number(text@);
        }
        return None;
    }
    broadcast use is_ascii_spec_bytes;

    let bytes = text.as_bytes();
    let len = bytes.len();
    let start: usize = if len > 0 && bytes[0] == 0x2b { 1 } else { 0 };
    let ghost digits = unsigned_part(text@);
    assert(bytes@.len() == text@.len());
    assert(digits =~= text@.subrange(start as int, len as int));
    if start == len {
        return None;
    }
    let mut value: u32 = 0;
    let mut i: usize = start;
    while i < len
        invariant
            start <= i <= len,
            len == bytes@.len(),
            len == text@.len(),
            is_ascii_chars(text@),
            forall|k: int| 0 <= k < len ==> #[trigger] bytes@[k] == text@[k] as u8,
            digits == unsigned_part(text@),
            digits == text@.subrange(start as int, len as int),
            all_digits(digits.take(i - start)),
            value == digits_value(digits.take(i - start)),
            value <= u16::MAX,
        decreases len - i,
    {
        let b = bytes[i];
        let ghost c = digits[i - start];
        assert(c == text@[i as int]);
        assert(b == bytes@[i as int]);
        assert('\0' <= c <= '\u{7f}');
        if b < 0x30 || b > 0x39 {
            assert(!is_digit(c));
            return None;
        }
        assert(is_digit(c));
        let ghost longer = digits.take(i - start + 1);
        assert(longer.drop_last() =~= digits.take(i - start));
        assert(longer.last() == c);
        assert forall|k: int| 0 <= k < longer.len() implies is_digit(#[trigger] longer[k]) by {
            if k < i - start {
                assert(longer[k] == digits.take(i - start)[k]);
            }
        }
        let digit: u32 = (b - 0x30) as u32;
        value = value * 10 + digit;
        assert(value == digits_value(longer));
        if value > 0xffff {
            proof {
                if all_digits(digits) {
                    lemma_digits_value_grows(digits, i - start + 1);
                }
            }
            return None;
        }
        i = i + 1;
    }
    assert(digits.take(len - start) =~= digits);
    Some(value as u16)
}

/// A text with a character beyond ASCII denotes no number.
proof fn lemma_non_ascii_is_no_number(s: Seq<char>)
    requires
        !is_ascii_chars(s),
    ensures
        decimal_u16(s) is None,
{
    let digits = unsigned_part(s);
    if digits.len() > 0 && all_digits(digits) {
        assert forall|i: int| 0 <= i < s.len() implies '\0' <= #[trigger] s[i] <= '\u{7f}' by {
            if s[0] == '+' {
                if i > 0 {
                    assert(is_digit(digits[i - 1]));
                }
            } else {
                assert(is_digit(digits[i]));
            }
        }
        assert(is_ascii_chars(s));
    }
}

} // verus!
