//! Integers in decimal notation.

use vstd::prelude::*;
use vstd::string::StrSliceExecFns;

verus! {

/// Whether the character is a decimal digit.
pub open spec fn is_digit(c: char) -> bool {
    '0' <= c && c <= '9'
}

/// The value of a decimal digit.
pub open spec fn digit_value(c: char) -> nat {
    (c as nat - '0' as nat) as nat
}

/// Whether the text is made of decimal digits only.
pub open spec fn all_digits(text: Seq<char>) -> bool {
    forall|i: int| 0 <= i < text.len() ==> is_digit(#[trigger] text[i])
}

/// The number that a run of decimal digits writes.
pub open spec fn digits_value(digits: Seq<char>) -> nat
    decreases digits.len(),
{
    if digits.len() == 0 {
        0
    } else {
        digits_value(digits.drop_last()) * 10 + digit_value(digits.last())
    }
}

/// The integer that a text writes: decimal digits, after a minus sign for a
/// negative number. `None` where the text is anything else.
pub open spec fn integer_of(text: Seq<char>) -> Option<int> {
    if text.len() > 0 && text[0] == '-' {
        if text.len() > 1 && all_digits(text.skip(1)) {
            Some(-(digits_value(text.skip(1)) as int))
        } else {
            None
        }
    } else if text.len() > 0 && all_digits(text) {
        Some(digits_value(text) as int)
    } else {
        None
    }
}

/// The integer that a text writes, where it fits a signed 64-bit number.
pub open spec fn i64_of(text: Seq<char>) -> Option<i64> {
    match integer_of(text) {
        Some(value) if i64::MIN <= value <= i64::MAX => Some(value as i64),
        _ => None,
    }
}

/// The integer that a text writes, where it fits an unsigned 64-bit number.
pub open spec fn u64_of(text: Seq<char>) -> Option<u64> {
    match integer_of(text) {
        Some(value) if 0 <= value <= u64::MAX => Some(value as u64),
        _ => None,
    }
}

/// A run of digits writes no smaller number than any run it begins with.
pub proof fn lemma_digits_value_grows(digits: Seq<char>, upto: int)
    requires
        0 <= upto <= digits.len(),
    ensures
        digits_value(digits.take(upto)) <= digits_value(digits),
    decreases digits.len(),
{
    if upto < digits.len() {
        lemma_digits_value_grows(digits.drop_last(), upto);
        assert(digits.drop_last().take(upto) =~= digits.take(upto));
    } else {
        assert(digits.take(upto) =~= digits);
    }
}

/// The number that the characters from `from` on write, where they are
/// decimal digits, at least one, and the number fits 64 bits.
fn parse_magnitude(text: &str, from: usize) -> (magnitude: Option<u64>)
    requires
        from <= text@.len(),
    ensures
        magnitude == if text@.len() > from && all_digits(text@.skip(from as int))
            && digits_value(text@.skip(from as int)) <= u64::MAX {
            Some(digits_value(text@.skip(from as int)) as u64)
        } else {
            None
        },
{
    let len = text.unicode_len();
    if len == from {
        return None;
    }
    let ghost digits = text@.skip(from as int);
    let mut value: u64 = 0;
    let mut i: usize = from;
    while i < len
        invariant
            from <= i <= len,
            len == text@.len(),
            digits == text@.skip(from as int),
            all_digits(digits.take(i - from)),
            value == digits_value(digits.take(i - from)),
        decreases len - i,
    {
        let c = text.get_char(i);
        assert(digits[i - from] == c);
        let ghost seen = digits.take(i - from);
        let ghost next = digits.take(i - from + 1);
        assert(next.drop_last() =~= seen);
        if !('0' <= c && c <= '9') {
            return None;
        }
        let digit: u64 = (c as u64) - ('0' as u64);
        if value > (u64::MAX - digit) / 10 {
            proof {
                lemma_digits_value_grows(digits, i - from + 1);
            }
            return None;
        }
        value = value * 10 + digit;
        assert(all_digits(next));
        i += 1;
    }
    assert(digits.take(i - from) =~= digits);
    Some(value)
}

/// Reads a signed 64-bit integer.
pub fn parse_i64(text: &str) -> (value: Option<i64>)
    ensures
        value == i64_of(text@),
{
    let len = text.unicode_len();
    if len == 0 {
        return None;
    }
    if text.get_char(0) == '-' {
        match parse_magnitude(text, 1) {
            Some(magnitude) => {
                if magnitude <= 0x7fff_ffff_ffff_ffff {
                    Some(-(magnitude as i64))
                } else if magnitude == 0x8000_0000_0000_0000 {
                    Some(i64::MIN)
                } else {
                    None
                }
            },
            None => None,
        }
    } else {
        assert(text@.skip(0) =~= text@);
        match parse_magnitude(text, 0) {
            Some(magnitude) => {
                if magnitude <= 0x7fff_ffff_ffff_ffff {
                    Some(magnitude as i64)
                } else {
                    None
                }
            },
            None => None,
        }
    }
}

/// Reads an unsigned 64-bit integer.
pub fn parse_u64(text: &str) -> (value: Option<u64>)
    ensures
        value == u64_of(text@),
{
    let len = text.unicode_len();
    if len == 0 {
        return None;
    }
    if text.get_char(0) == '-' {
        match parse_magnitude(text, 1) {
            Some(magnitude) => {
                if magnitude == 0 {
                    Some(0)
                } else {
                    None
                }
            },
            None => None,
        }
    } else {
        assert(text@.skip(0) =~= text@);
        parse_magnitude(text, 0)
    }
}

/// The character that writes a decimal digit.
pub open spec fn digit_char(digit: nat) -> char
    recommends
        digit < 10,
{
    (('0' as u8 + digit) as u8) as char
}

/// The decimal digits that write a number, without leading zeros.
pub open spec fn digits_text(value: nat) -> Seq<char>
    decreases value,
{
    if value < 10 {
        seq![digit_char(value)]
    } else {
        digits_text(value / 10).push(digit_char(value % 10))
    }
}

/// The text that writes an integer: its decimal digits, after a minus sign
/// where it is negative.
pub open spec fn decimal_text(value: int) -> Seq<char> {
    if value < 0 {
        seq!['-'] + digits_text((-value) as nat)
    } else {
        digits_text(value as nat)
    }
}

/// The digits that write a number are digits, and write that number.
pub proof fn lemma_digits_text(value: nat)
    ensures
        digits_text(value).len() > 0,
        all_digits(digits_text(value)),
        digits_value(digits_text(value)) == value,
    decreases value,
{
    let text = digits_text(value);
    if value < 10 {
        assert(digits_value(text.drop_last()) == 0);
    } else {
        lemma_digits_text(value / 10);
        assert(text.drop_last() =~= digits_text(value / 10));
        assert(all_digits(text));
    }
}

/// The text that writes an integer reads back as that integer.
pub proof fn lemma_decimal_text(value: int)
    ensures
        integer_of(decimal_text(value)) == Some(value),
{
    if value < 0 {
        lemma_digits_text((-value) as nat);
        assert(decimal_text(value).skip(1) =~= digits_text((-value) as nat));
    } else {
        lemma_digits_text(value as nat);
    }
}

/// Adds the decimal digits of a number to a text.
fn push_digits(value: u64, text: &mut String)
    ensures
        final(text)@ == old(text)@ + digits_text(value as nat),
    decreases value,
{
    if value >= 10 {
        push_digits(value / 10, text);
    }
    let digit: u8 = (value % 10) as u8;
    let c = (48u8 + digit) as char;
    text.push(c);
}

/// Writes a signed 64-bit integer in decimal notation.
pub fn write_i64(value: i64) -> (text: String)
    ensures
        text@ == decimal_text(value as int),
{
    let mut text = String::new();
    if value < 0 {
        text.push('-');
        let magnitude: u64 = ((-(value + 1)) as u64) + 1;
        push_digits(magnitude, &mut text);
    } else {
        push_digits(value as u64, &mut text);
    }
    text
}

} // verus!
