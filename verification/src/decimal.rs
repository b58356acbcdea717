//! Whole numbers in decimal notation, as they stand on a command line.

use vstd::prelude::*;
use vstd::string::*;

verus! {

/// Whether `c` is a decimal digit.
pub open spec fn is_digit(c: char) -> bool {
    '0' <= c <= '9'
}

/// The number that a sequence of decimal digits denotes.
pub open spec fn digits_value(digits: Seq<char>) -> int
    decreases digits.len(),
{
    if digits.len() == 0 {
        0
    } else {
        digits_value(digits.drop_last()) * 10 + (digits.last() as int - '0' as int)
    }
}

/// Whether `text` starts with a sign.
pub open spec fn has_sign(text: Seq<char>) -> bool {
    text.len() > 0 && (text[0] == '+' || text[0] == '-')
}

/// The digits of `text`: all of it but a leading sign.
pub open spec fn digits_of(text: Seq<char>) -> Seq<char> {
    if has_sign(text) {
        text.skip(1)
    } else {
        text
    }
}

/// The integer that `text` denotes in decimal notation: an optional sign
/// and then at least one digit, with nothing before, between or after.
pub open spec fn decimal_value(text: Seq<char>) -> Option<int> {
    let digits = digits_of(text);
    if digits.len() == 0 || !(forall|i: int|
        0 <= i < digits.len() ==> is_digit(#[trigger] digits[i])) {
        None
    } else if has_sign(text) && text[0] == '-' {
        Some(-digits_value(digits))
    } else {
        Some(digits_value(digits))
    }
}

/// The `i32` that `text` denotes, if it denotes an integer that fits.
pub open spec fn i32_value(text: Seq<char>) -> Option<i32> {
    match decimal_value(text) {
        Some(v) => if i32::MIN <= v <= i32::MAX {
            Some(v as i32)
        } else {
            None
        },
        None => None,
    }
}

/// The `i32` that `text` denotes and that is at least `min`.
pub open spec fn ranged_value(text: Seq<char>, min: i32) -> Option<i32> {
    match i32_value(text) {
        Some(v) => if v >= min {
            Some(v)
        } else {
            None
        },
        None => None,
    }
}

/// Adding a digit never makes the number smaller.
proof fn lemma_digits_value_grows(digits: Seq<char>)
    requires
        digits.len() > 0,
        forall|i: int| 0 <= i < digits.len() ==> is_digit(#[trigger] digits[i]),
    ensures
        0 <= digits_value(digits.drop_last()) <= digits_value(digits),
        digits_value(digits) == digits_value(digits.drop_last()) * 10 + (digits.last() as int
            - '0' as int),
    decreases digits.len(),
{
    let front = digits.drop_last();
    if front.len() > 0 {
        lemma_digits_value_grows(front);
    }
    assert(is_digit(digits[digits.len() - 1]));
}

/// The `i32` that `text` denotes in decimal notation.
pub fn parse_i32(text: &str) -> (r: Option<i32>)
    ensures
        r == i32_value(text@),
{
    let len = text.unicode_len();
    if len == 0 {
        return None;
    }
    let first = text.get_char(0);
    let signed = first == '+' || first == '-';
    let negative = first == '-';
    let start: usize = if signed {
        1
    } else {
        0
    };
    if start == len {
        return None;
    }
    let ghost digits = digits_of(text@);
    let mut magnitude: i64 = 0;
    let mut too_large = false;
    let mut i: usize = start;
    while i < len
        invariant
            start <= i <= len,
            len == text@.len(),
            digits == digits_of(text@),
            digits == text@.skip(start as int),
            forall|k: int| 0 <= k < i - start ==> is_digit(#[trigger] digits[k]),
            0 <= magnitude <= 0x8000_0000,
            !too_large ==> magnitude == digits_value(digits.take(i - start)),
            too_large ==> digits_value(digits.take(i - start)) > 0x8000_0000,
        decreases len - i,
    {
        let c = text.get_char(i);
        if !('0' <= c && c <= '9') {
            assert(!is_digit(digits[i - start]));
            return None;
        }
        let ghost longer = digits.take(i - start + 1);
        proof {
            assert(longer.drop_last() =~= digits.take(i - start));
            assert(longer.last() == c);
            lemma_digits_value_grows(longer);
        }
        if !too_large {
            let next = magnitude * 10 + (c as i64 - '0' as i64);
            if next > 0x8000_0000 {
                too_large = true;
            } else {
                magnitude = next;
            }
        }
        i += 1;
    }
    proof {
        assert(digits.take(len - start) =~= digits);
    }
    if too_large {
        None
    } else if negative {
        Some((-magnitude) as i32)
    } else if magnitude <= 0x7fff_ffff {
        Some(magnitude as i32)
    } else {
        None
    }
}

/// The `i32` that `text` denotes, if it is at least `min`.
pub fn parse_ranged(text: &str, min: i32) -> (r: Option<i32>)
    ensures
        r == ranged_value(text@, min),
{
    match parse_i32(text) {
        Some(v) => if v >= min {
            Some(v)
        } else {
            None
        },
        None => None,
    }
}

} // verus!
