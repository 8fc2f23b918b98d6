//! Reading whole numbers in decimal notation.

use vstd::prelude::*;
use crate::helpers::chars_of;

verus! {

/// The value of a decimal digit; none for any other character.
pub open spec fn digit_of(c: char) -> Option<int> {
    let n = c as int;
    if 0x30 <= n <= 0x39 {
        Some(n - 0x30)
    } else {
        None
    }
}

/// The number that a sequence of decimal digits denotes, the empty sequence
/// denoting zero; none where a character is no digit.
pub open spec fn digits_value(digits: Seq<char>) -> Option<int>
    decreases digits.len(),
{
    if digits.len() == 0 {
        Some(0)
    } else {
        match (digits_value(digits.drop_last()), digit_of(digits.last())) {
            (Some(value), Some(digit)) => Some(10 * value + digit),
            _ => None,
        }
    }
}

/// Says that `text` starts with a minus sign.
pub open spec fn is_negative(text: Seq<char>) -> bool {
    text.len() > 0 && text[0] == '-'
}

/// `text` without the sign that it may start with.
pub open spec fn unsigned_part(text: Seq<char>) -> Seq<char> {
    if text.len() > 0 && (text[0] == '-' || text[0] == '+') {
        text.drop_first()
    } else {
        text
    }
}

/// The whole number that `text` denotes: an optional sign, then one decimal
/// digit or more, and nothing else. None for any other text.
pub open spec fn decimal_value(text: Seq<char>) -> Option<int> {
    let digits = unsigned_part(text);
    if digits.len() == 0 {
        None
    } else {
        match digits_value(digits) {
            Some(value) => Some(
                if is_negative(text) {
                    -value
                } else {
                    value
                },
            ),
            None => None,
        }
    }
}

/// The number that `text` denotes, if it denotes one that an `i64` can hold.
pub open spec fn parsed_i64(text: Seq<char>) -> Option<i64> {
    match decimal_value(text) {
        Some(value) => if i64::MIN <= value <= i64::MAX {
            Some(value as i64)
        } else {
            None
        },
        None => None,
    }
}

/// The number that `text` denotes, if it denotes one that an `i32` can hold.
pub open spec fn parsed_i32(text: Seq<char>) -> Option<i32> {
    match decimal_value(text) {
        Some(value) => if i32::MIN <= value <= i32::MAX {
            Some(value as i32)
        } else {
            None
        },
        None => None,
    }
}

/// A sequence of digits denotes at least what its first `n` characters
/// denote, and where those hold a character that is no digit it denotes
/// nothing.
proof fn lemma_digits_prefix(digits: Seq<char>, n: int)
    requires
        0 <= n <= digits.len(),
    ensures
        digits_value(digits.take(n)) is None ==> digits_value(digits) is None,
        digits_value(digits) matches Some(value) ==> digits_value(digits.take(n)) matches Some(part)
            && 0 <= part <= value,
    decreases digits.len() - n,
{
    if n == digits.len() {
        assert(digits.take(n) =~= digits);
        lemma_digits_not_negative(digits);
    } else {
        lemma_digits_prefix(digits, n + 1);
        assert(digits.take(n + 1).drop_last() =~= digits.take(n));
        lemma_digits_not_negative(digits.take(n));
    }
}

/// What a sequence of digits denotes is not negative.
proof fn lemma_digits_not_negative(digits: Seq<char>)
    ensures
        digits_value(digits) matches Some(value) ==> value >= 0,
    decreases digits.len(),
{
    if digits.len() > 0 {
        lemma_digits_not_negative(digits.drop_last());
    }
}

/// The value of a decimal digit.
fn digit(c: char) -> (value: Option<u64>)
    ensures
        match value {
            Some(value) => digit_of(c) == Some(value as int) && value <= 9,
            None => digit_of(c) is None,
        },
{
    let n = c as u32;
    if 0x30 <= n && n <= 0x39 {
        Some((n - 0x30) as u64)
    } else {
        None
    }
}

/// Reads a whole number in decimal notation: an optional sign, then one
/// digit or more. White space, an empty text, a sign alone and a number
/// that an `i64` cannot hold are all refused.
pub fn parse_i64(text: &str) -> (number: Option<i64>)
    ensures
        number == parsed_i64(text@),
{
    let chars = chars_of(text);
    let len = chars.len();
    if len == 0 {
        return None;
    }
    let negative = chars[0] == '-';
    let start: usize = if negative || chars[0] == '+' {
        1
    } else {
        0
    };
    if start == len {
        assert(unsigned_part(text@).len() == 0);
        return None;
    }
    let ghost digits = unsigned_part(text@);
    assert(digits =~= text@.skip(start as int));
    let limit: u64 = if negative {
        0x8000_0000_0000_0000
    } else {
        0x7fff_ffff_ffff_ffff
    };
    let mut magnitude: u64 = 0;
    let mut i: usize = start;
    assert(digits.take(0) =~= Seq::<char>::empty());
    while i < len
        invariant
            start <= i <= len,
            len == chars@.len(),
            chars@ == text@,
            digits == text@.skip(start as int),
            digits == unsigned_part(text@),
            digits.len() == len - start,
            negative == is_negative(text@),
            limit == if negative {
                0x8000_0000_0000_0000u64
            } else {
                0x7fff_ffff_ffff_ffffu64
            },
            digits_value(digits.take(i - start)) == Some(magnitude as int),
            magnitude <= limit,
        decreases len - i,
    {
        proof {
            lemma_digits_prefix(digits, i - start + 1);
            assert(digits.take(i - start + 1).drop_last() =~= digits.take(i - start));
            assert(digits.take(i - start + 1).last() == chars@[i as int]);
        }
        let ghost longer = digits.take(i - start + 1);
        match digit(chars[i]) {
            Some(value) => {
                assert(digits_value(longer) == Some(10 * magnitude + value));
                if magnitude > limit / 10 || (magnitude == limit / 10 && value > limit % 10) {
                    assert(10 * magnitude + value > limit);
                    return None;
                }
                magnitude = 10 * magnitude + value;
            },
            None => {
                assert(digits_value(longer) is None);
                return None;
            },
        }
        i += 1;
    }
    assert(digits.take(len - start) =~= digits);
    if negative {
        if magnitude == 0x8000_0000_0000_0000 {
            Some(i64::MIN)
        } else {
            Some(-(magnitude as i64))
        }
    } else {
        Some(magnitude as i64)
    }
}

/// Reads a whole number in decimal notation that an `i32` can hold.
pub fn parse_i32(text: &str) -> (number: Option<i32>)
    ensures
        number == parsed_i32(text@),
{
    match parse_i64(text) {
        Some(value) => {
            if -0x8000_0000 <= value && value <= 0x7fff_ffff {
                Some(value as i32)
            } else {
                None
            }
        },
        None => None,
    }
}

} // verus!
