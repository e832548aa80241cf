//! Little-endian words in byte strings, and decimal numbers in text.

use vstd::prelude::*;

verus! {

/// The four bytes of a word, lowest first.
pub open spec fn le4(w: u32) -> Seq<u8> {
    seq![
        (w % 256) as u8,
        ((w / 256) % 256) as u8,
        ((w / 65536) % 256) as u8,
        ((w / 16777216) % 256) as u8,
    ]
}

/// The word whose bytes, lowest first, are the four bytes of `s` from
/// `at` on.
pub open spec fn word_at(s: Seq<u8>, at: int) -> u32 {
    (s[at] + 256 * s[at + 1] + 65536 * s[at + 2] + 16777216 * s[at + 3]) as u32
}

/// The eight bytes of a 64-bit number, lowest first.
pub open spec fn le8(n: u64) -> Seq<u8> {
    le4((n % 4294967296) as u32) + le4((n / 4294967296) as u32)
}

/// The 64-bit number whose bytes, lowest first, are the eight bytes of `s`
/// from `at` on.
pub open spec fn long_at(s: Seq<u8>, at: int) -> u64 {
    (word_at(s, at) + 4294967296 * word_at(s, at + 4)) as u64
}

/// The word that stands for a signed number: the number itself where it
/// is not negative, else the number plus two to the thirty-second.
pub open spec fn unsigned(x: i32) -> u32 {
    if x >= 0 {
        x as u32
    } else {
        (x + 4294967296) as u32
    }
}

/// The signed number that a word stands for.
pub open spec fn signed(w: u32) -> i32 {
    if w < 2147483648 {
        w as i32
    } else {
        (w - 4294967296) as i32
    }
}

/// The decimal digits of a number, as characters, without leading zeros.
pub open spec fn decimal(n: nat) -> Seq<u8>
    decreases n,
{
    if n < 10 {
        seq![(48 + n) as u8]
    } else {
        decimal(n / 10).push((48 + n % 10) as u8)
    }
}

/// True when every byte of `s` is a decimal digit.
pub open spec fn all_digits(s: Seq<u8>) -> bool {
    forall|i: int| 0 <= i < s.len() ==> 48 <= #[trigger] s[i] <= 57
}

/// The number that a string of decimal digits writes.
pub open spec fn digits_value(s: Seq<u8>) -> nat
    decreases s.len(),
{
    if s.len() == 0 {
        0
    } else {
        (digits_value(s.drop_last()) * 10 + (s.last() - 48)) as nat
    }
}

/// The number that a text writes in decimal, if it is one that fits 32
/// bits: the text is not empty, holds digits only, and their value is
/// small enough. Leading zeros are read over.
pub open spec fn decimal_value(s: Seq<u8>) -> Option<u32> {
    if s.len() > 0 && all_digits(s) && digits_value(s) <= u32::MAX {
        Some(digits_value(s) as u32)
    } else {
        None
    }
}

/// A word is found again where its bytes were put.
pub proof fn lemma_word_at_le4(before: Seq<u8>, w: u32, after: Seq<u8>)
    ensures
        word_at(before + le4(w) + after, before.len() as int) == w,
        le4(w).len() == 4,
{
}

/// A 64-bit number is found again where its bytes were put.
pub proof fn lemma_long_at_le8(before: Seq<u8>, n: u64, after: Seq<u8>)
    ensures
        long_at(before + le8(n) + after, before.len() as int) == n,
        le8(n).len() == 8,
{
    let low = (n % 4294967296) as u32;
    let high = (n / 4294967296) as u32;
    lemma_word_at_le4(before, low, le4(high) + after);
    lemma_word_at_le4(before + le4(low), high, after);
}

/// Signed numbers and the words that stand for them correspond one to
/// one.
pub proof fn lemma_signed_unsigned(x: i32, w: u32)
    ensures
        signed(unsigned(x)) == x,
        unsigned(signed(w)) == w,
{
}

/// The decimal digits of a number are digits, and their value is the
/// number.
pub proof fn lemma_decimal_value(n: nat)
    ensures
        decimal(n).len() > 0,
        all_digits(decimal(n)),
        digits_value(decimal(n)) == n,
    decreases n,
{
    if n >= 10 {
        lemma_decimal_value(n / 10);
        let d = decimal(n / 10);
        let last = (48 + n % 10) as u8;
        assert(d.push(last).drop_last() == d);
    } else {
        let s = seq![(48 + n) as u8];
        assert(digits_value(s.drop_last()) == 0);
    }
}

/// Reading the decimal text of a 32-bit number gives the number back.
pub proof fn lemma_decimal_round_trip(n: u32)
    ensures
        decimal_value(decimal(n as nat)) == Some(n),
{
    lemma_decimal_value(n as nat);
}

/// The value of a string of digits is at least the value of any of its
/// beginnings.
pub proof fn lemma_digits_value_grows(s: Seq<u8>, n: int)
    requires
        all_digits(s),
        0 <= n <= s.len(),
    ensures
        digits_value(s.take(n)) <= digits_value(s),
    decreases s.len(),
{
    if n < s.len() {
        assert(s.drop_last().take(n) == s.take(n));
        lemma_digits_value_grows(s.drop_last(), n);
    } else {
        assert(s.take(n) == s);
    }
}

/// Appends the four bytes of a word.
pub fn put_u32(out: &mut Vec<u8>, w: u32)
    ensures
        final(out)@ == old(out)@ + le4(w),
{
    out.push((w % 256) as u8);
    out.push(((w / 256) % 256) as u8);
    out.push(((w / 65536) % 256) as u8);
    out.push(((w / 16777216) % 256) as u8);
}

/// Reads the word at `at`.
pub(crate) fn get_u32(bytes: &Vec<u8>, at: usize) -> (w: u32)
    requires
        at + 4 <= bytes@.len(),
    ensures
        w == word_at(bytes@, at as int),
{
    let len = bytes.len();
    bytes[at] as u32 + 256 * (bytes[at + 1] as u32) + 65536 * (bytes[at + 2] as u32) + 16777216 * (
    bytes[at + 3] as u32)
}

/// Reads the 64-bit number at `at`.
pub(crate) fn get_u64(bytes: &Vec<u8>, at: usize) -> (n: u64)
    requires
        at + 8 <= bytes@.len(),
    ensures
        n == long_at(bytes@, at as int),
{
    let len = bytes.len();
    get_u32(bytes, at) as u64 + 4294967296 * (get_u32(bytes, at + 4) as u64)
}

/// The word that stands for a signed number.
pub fn to_unsigned(x: i32) -> (w: u32)
    ensures
        w == unsigned(x),
{
    if x >= 0 {
        x as u32
    } else {
        (x as i64 + 4294967296) as u32
    }
}

/// The signed number that a word stands for.
pub fn to_signed(w: u32) -> (x: i32)
    ensures
        x == signed(w),
{
    if w < 2147483648 {
        w as i32
    } else {
        (w as i64 - 4294967296) as i32
    }
}

/// Appends the decimal digits of a number.
pub fn put_decimal(out: &mut Vec<u8>, n: u32)
    ensures
        final(out)@ == old(out)@ + decimal(n as nat),
    decreases n,
{
    if n >= 10 {
        put_decimal(out, n / 10);
    }
    out.push(48 + (n % 10) as u8);
}

/// The decimal text of a number.
pub fn format_decimal(n: u32) -> (text: Vec<u8>)
    ensures
        text@ == decimal(n as nat),
{
    let mut text: Vec<u8> = Vec::new();
    put_decimal(&mut text, n);
    text
}

/// Reads a number written in decimal.
pub fn parse_decimal(text: &Vec<u8>) -> (n: Option<u32>)
    ensures
        n == decimal_value(text@),
{
    if text.len() == 0 {
        return None;
    }
    let mut value: u64 = 0;
    let mut i: usize = 0;
    while i < text.len()
        invariant
            i <= text@.len(),
            text@.len() > 0,
            all_digits(text@.take(i as int)),
            value == digits_value(text@.take(i as int)),
            value <= u32::MAX,
        decreases text@.len() - i,
    {
        let c = text[i];
        let ghost head = text@.take(i as int + 1);
        proof {
            assert(head.drop_last() == text@.take(i as int));
        }
        if c < 48 || c > 57 {
            return None;
        }
        value = value * 10 + (c - 48) as u64;
        if value > u32::MAX as u64 {
            proof {
                if all_digits(text@) {
                    lemma_digits_value_grows(text@, i as int + 1);
                }
            }
            return None;
        }
        i = i + 1;
    }
    assert(text@.take(i as int) == text@);
    Some(value as u32)
}

} // verus!
