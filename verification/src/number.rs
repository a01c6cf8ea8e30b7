//! Strict decimal integers: an optional sign and then digits, nothing before,
//! between or after them.

use vstd::prelude::*;
use crate::text::chars_of;

verus! {

/// `c` is one of the ten decimal digits.
pub open spec fn is_digit(c: char) -> bool {
    '0' <= c && c <= '9'
}

/// The number that the digit `c` stands for.
pub open spec fn digit_of(c: char) -> int {
    c as int - '0' as int
}

/// Every character of `digits` is a decimal digit.
pub open spec fn all_digits(digits: Seq<char>) -> bool {
    forall|i: int| 0 <= i < digits.len() ==> is_digit(#[trigger] digits[i])
}

/// The number that a run of digits writes in base ten; 0 for the empty run.
pub open spec fn digits_value(digits: Seq<char>) -> int
    decreases digits.len(),
{
    if digits.len() == 0 {
        0
    } else {
        digits_value(digits.drop_last()) * 10 + digit_of(digits.last())
    }
}

/// `text` begins with a sign.
pub open spec fn is_signed(text: Seq<char>) -> bool {
    text.len() > 0 && (text[0] == '+' || text[0] == '-')
}

/// The digits of `text`: all of it but a leading sign.
pub open spec fn digits_part(text: Seq<char>) -> Seq<char> {
    if is_signed(text) {
        text.subrange(1, text.len() as int)
    } else {
        text
    }
}

/// The integer that `text` writes, where the whole of `text` is an optional
/// `+` or `-` followed by at least one decimal digit; `None` for any other
/// text.
pub open spec fn decimal_value(text: Seq<char>) -> Option<int> {
    let digits = digits_part(text);
    if digits.len() > 0 && all_digits(digits) {
        if text[0] == '-' {
            Some(-digits_value(digits))
        } else {
            Some(digits_value(digits))
        }
    } else {
        None
    }
}

/// What `text` parses to as a signed integer of 64 bits: its decimal value
/// where that fits, else nothing.
pub open spec fn parsed_i64(text: Seq<char>) -> Option<i64> {
    match decimal_value(text) {
        Some(v) => if i64::MIN <= v <= i64::MAX {
            Some(v as i64)
        } else {
            None
        },
        None => None,
    }
}

/// What `text` parses to as a signed integer of 32 bits: its decimal value
/// where that fits, else nothing.
pub open spec fn parsed_i32(text: Seq<char>) -> Option<i32> {
    match decimal_value(text) {
        Some(v) => if i32::MIN <= v <= i32::MAX {
            Some(v as i32)
        } else {
            None
        },
        None => None,
    }
}

/// The largest magnitude that a signed integer of 64 bits can have.
pub open spec fn magnitude_limit() -> int {
    0x8000_0000_0000_0000
}

/// Reads the digits of `chars` from place `from` on. Gives their value where
/// all are digits and the value is no more than the largest magnitude of 64
/// bits.
fn read_digits(chars: &Vec<char>, from: usize) -> (r: Option<i128>)
    requires
        from <= chars@.len(),
    ensures
        match r {
            Some(m) => {
                &&& all_digits(chars@.subrange(from as int, chars@.len() as int))
                &&& m == digits_value(chars@.subrange(from as int, chars@.len() as int))
                &&& 0 <= m <= magnitude_limit()
            },
            None => {
                ||| !all_digits(chars@.subrange(from as int, chars@.len() as int))
                ||| digits_value(chars@.subrange(from as int, chars@.len() as int))
                    > magnitude_limit()
            },
        },
{
    let ghost digits = chars@.subrange(from as int, chars@.len() as int);
    let limit: i128 = 0x8000_0000_0000_0000;
    let mut value: i128 = 0;
    let mut too_big: bool = false;
    let mut i: usize = from;
    while i < chars.len()
        invariant
            from <= i <= chars@.len(),
            digits == chars@.subrange(from as int, chars@.len() as int),
            limit == magnitude_limit(),
            all_digits(digits.take(i - from)),
            0 <= value <= limit,
            !too_big ==> value == digits_value(digits.take(i - from)),
            too_big ==> digits_value(digits.take(i - from)) > limit,
        decreases chars@.len() - i,
    {
        let c: char = chars[i];
        assert(c == digits[i - from]);
        if !(c >= '0' && c <= '9') {
            assert(!is_digit(digits[i - from]));
            return None;
        }
        let d: u32 = c as u32 - '0' as u32;
        proof {
            let before = digits.take(i - from);
            let after = digits.take(i - from + 1);
            assert(after.drop_last() =~= before);
            assert(after.last() == c);
            assert(digits_value(after) == digits_value(before) * 10 + digit_of(c));
            assert forall|k: int| 0 <= k < after.len() implies is_digit(#[trigger] after[k]) by {
                if k < before.len() {
                    assert(before[k] == after[k]);
                }
            }
        }
        if !too_big {
            value = value * 10 + d as i128;
            if value > limit {
                too_big = true;
                value = 0;
            }
        }
        i += 1;
    }
    proof {
        assert(digits.take(i - from) =~= digits);
    }
    if too_big {
        None
    } else {
        Some(value)
    }
}

/// Parses `text` as a signed integer of 64 bits, strictly: the whole text is
/// an optional sign and at least one digit, and the value fits.
pub fn parse_i64(text: &str) -> (r: Option<i64>)
    ensures
        r == parsed_i64(text@),
{
    let chars = chars_of(text);
    if chars.len() == 0 {
        return None;
    }
    let first: char = chars[0];
    let signed: bool = first == '+' || first == '-';
    let from: usize = if signed {
        1
    } else {
        0
    };
    if from == chars.len() {
        return None;
    }
    assert(chars@.subrange(0, chars@.len() as int) =~= chars@);
    assert(digits_part(text@) == chars@.subrange(from as int, chars@.len() as int));
    match read_digits(&chars, from) {
        None => None,
        Some(m) => {
            if first == '-' {
                Some((-m) as i64)
            } else if m > 0x7fff_ffff_ffff_ffff {
                None
            } else {
                Some(m as i64)
            }
        },
    }
}

/// Parses `text` as a signed integer of 32 bits, strictly: the whole text is
/// an optional sign and at least one digit, and the value fits.
pub fn parse_i32(text: &str) -> (r: Option<i32>)
    ensures
        r == parsed_i32(text@),
{
    match parse_i64(text) {
        Some(v) => if -0x8000_0000 <= v && v <= 0x7fff_ffff {
            Some(v as i32)
        } else {
            None
        },
        None => None,
    }
}

/// A text that parses as an integer of 32 bits parses as one of 64 bits too,
/// to the same value.
pub proof fn parsed_i32_is_parsed_i64(text: Seq<char>)
    requires
        parsed_i32(text).is_some(),
    ensures
        parsed_i64(text) == Some(parsed_i32(text).unwrap() as i64),
{
}

} // verus!
