//! Reading the requested length from the text of the length field.

use vstd::prelude::*;
use vstd::std_specs::iter::IteratorSpec;

verus! {

/// Whether `symbol` is one of the ten decimal digits.
pub open spec fn is_digit(symbol: char) -> bool {
    '0' <= symbol <= '9'
}

/// The number a decimal digit stands for.
pub open spec fn digit_value(symbol: char) -> nat {
    if is_digit(symbol) {
        (symbol as nat - '0' as nat) as nat
    } else {
        0
    }
}

/// Whether every symbol of `digits` is a decimal digit.
pub open spec fn all_digits(digits: Seq<char>) -> bool {
    forall|i: int| 0 <= i < digits.len() ==> is_digit(#[trigger] digits[i])
}

/// The number that a sequence of decimal digits denotes, most significant
/// digit first. The empty sequence denotes zero.
pub open spec fn decimal_value(digits: Seq<char>) -> nat
    decreases digits.len(),
{
    if digits.len() == 0 {
        0
    } else {
        10 * decimal_value(digits.drop_last()) + digit_value(digits.last())
    }
}

/// The text without the plus sign that may stand in front of the digits.
pub open spec fn unsigned_part(text: Seq<char>) -> Seq<char> {
    if text.len() > 0 && text[0] == '+' {
        text.skip(1)
    } else {
        text
    }
}

/// The length that `text` denotes: the text is a decimal number, at least
/// one digit with an optional plus sign in front, and the number fits in 32
/// bits. Any other text denotes no length.
pub open spec fn parsed_length(text: Seq<char>) -> Option<u32> {
    let digits = unsigned_part(text);
    if digits.len() > 0 && all_digits(digits) && decimal_value(digits) <= u32::MAX {
        Some(decimal_value(digits) as u32)
    } else {
        None
    }
}

/// A number is never smaller than the number that its leading digits denote.
pub proof fn lemma_decimal_value_of_prefix(digits: Seq<char>, count: int)
    requires
        0 <= count <= digits.len(),
    ensures
        decimal_value(digits.take(count)) <= decimal_value(digits),
    decreases digits.len(),
{
    if count == digits.len() {
        assert(digits.take(count) == digits);
    } else {
        lemma_decimal_value_of_prefix(digits.drop_last(), count);
        assert(digits.drop_last().take(count) == digits.take(count));
    }
}

/// Reads the requested length from the text of the length field.
pub fn parse_length(text: &str) -> (length: Option<u32>)
    ensures
        length == parsed_length(text@),
{
    let ghost digits = unsigned_part(text@);
    let ghost mut seen: int = 0;
    let mut at_start = true;
    let mut value: u32 = 0;
    let mut any_digit = false;
    for symbol in iter: text.chars()
        invariant
            iter.seq() == text@,
            digits == unsigned_part(text@),
            at_start <==> iter.index() == 0,
            seen == iter.index() - (if digits.len() < text@.len() && !at_start {
                1int
            } else {
                0int
            }),
            any_digit <==> seen > 0,
            all_digits(digits.take(seen)),
            value == decimal_value(digits.take(seen)),
    {
        if at_start && symbol == '+' {
            at_start = false;
        } else if '0' <= symbol && symbol <= '9' {
            let digit = symbol as u32 - '0' as u32;
            proof {
                let longer = digits.take(seen + 1);
                assert(longer.drop_last() == digits.take(seen));
                assert(longer.last() == symbol);
                lemma_decimal_value_of_prefix(digits, seen + 1);
            }
            if value > (u32::MAX - digit) / 10 {
                return None;
            }
            value = 10 * value + digit;
            at_start = false;
            any_digit = true;
            proof {
                seen = seen + 1;
            }
        } else {
            assert(!is_digit(digits[seen]));
            return None;
        }
    }
    if any_digit {
        assert(digits.take(seen) == digits);
        Some(value)
    } else {
        None
    }
}

} // verus!
