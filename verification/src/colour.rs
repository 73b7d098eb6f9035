//! Reading a role colour from text.
//!
//! A colour is written as six hexadecimal digits, with or without a `#`
//! in front: `ff8800`, `#FF8800`.

use vstd::prelude::*;
use vstd::string::*;
use crate::error::ErrorKind;

verus! {

/// The colour of a role for which none was given.
pub const DEFAULT_COLOUR: u32 = 0;

/// What to tell somebody whose colour could not be read.
pub const COLOUR_HINT: &'static str =
    "A colour is six hexadecimal digits, with or without a # in front, like #ff8800";

/// The value of a hexadecimal digit.
pub open spec fn hex_digit(c: char) -> Option<nat> {
    if '0' <= c <= '9' {
        Some((c as nat - '0' as nat) as nat)
    } else if 'a' <= c <= 'f' {
        Some((c as nat - 'a' as nat + 10) as nat)
    } else if 'A' <= c <= 'F' {
        Some((c as nat - 'A' as nat + 10) as nat)
    } else {
        None
    }
}

/// Every character is a hexadecimal digit.
pub open spec fn all_hex(digits: Seq<char>) -> bool {
    forall|i: int| 0 <= i < digits.len() ==> hex_digit(#[trigger] digits[i]) is Some
}

/// The number that the digits write, the first the most significant.
pub open spec fn hex_value(digits: Seq<char>) -> nat
    decreases digits.len(),
{
    if digits.len() == 0 {
        0
    } else {
        16 * hex_value(digits.drop_last()) + match hex_digit(digits.last()) {
            Some(v) => v,
            None => 0,
        }
    }
}

/// The text without the `#` that may stand in front of six digits.
pub open spec fn colour_digits(text: Seq<char>) -> Seq<char> {
    if text.len() == 7 && text[0] == '#' {
        text.subrange(1, 7)
    } else {
        text
    }
}

/// The text writes a colour.
pub open spec fn is_colour(text: Seq<char>) -> bool {
    colour_digits(text).len() == 6 && all_hex(colour_digits(text))
}

/// The colour that the text writes.
pub open spec fn colour_value(text: Seq<char>) -> nat {
    hex_value(colour_digits(text))
}

spec fn sixteen_to(n: nat) -> nat
    decreases n,
{
    if n == 0 {
        1
    } else {
        16 * sixteen_to((n - 1) as nat)
    }
}

/// A colour fits in 24 bits.
pub proof fn lemma_colour_range(text: Seq<char>)
    requires
        is_colour(text),
    ensures
        colour_value(text) <= 0xFF_FFFF,
{
    lemma_hex_value_bound(colour_digits(text));
    reveal_with_fuel(sixteen_to, 7);
}

proof fn lemma_hex_value_bound(digits: Seq<char>)
    ensures
        hex_value(digits) < sixteen_to(digits.len()),
    decreases digits.len(),
{
    if digits.len() > 0 {
        lemma_hex_value_bound(digits.drop_last());
    }
}

/// The value of a hexadecimal digit, if the character is one.
pub fn hex_digit_of(c: char) -> (r: Option<u32>)
    ensures
        match r {
            Some(v) => hex_digit(c) == Some(v as nat) && v < 16,
            None => hex_digit(c) is None,
        },
{
    if '0' <= c && c <= '9' {
        Some(c as u32 - '0' as u32)
    } else if 'a' <= c && c <= 'f' {
        Some(c as u32 - 'a' as u32 + 10)
    } else if 'A' <= c && c <= 'F' {
        Some(c as u32 - 'A' as u32 + 10)
    } else {
        None
    }
}

/// Reads a colour. Fails with `InvalidArgument` on any text that is not
/// six hexadecimal digits with or without a `#` in front.
pub fn parse_colour(text: &str) -> (r: Result<u32, ErrorKind>)
    ensures
        is_colour(text@) ==> r == Ok::<u32, ErrorKind>(colour_value(text@) as u32),
        !is_colour(text@) ==> r == Err::<u32, ErrorKind>(ErrorKind::InvalidArgument),
        r matches Ok(v) ==> v <= 0xFF_FFFF,
{
    let len = text.unicode_len();
    if len != 6 && len != 7 {
        return Err(ErrorKind::InvalidArgument);
    }
    let start: usize = if len == 7 {
        if text.get_char(0) != '#' {
            return Err(ErrorKind::InvalidArgument);
        }
        1
    } else {
        0
    };
    let ghost digits = colour_digits(text@);
    assert(digits =~= text@.subrange(start as int, len as int));
    let mut value: u32 = 0;
    let mut i: usize = 0;
    while i < 6
        invariant
            i <= 6,
            start + 6 == len,
            len == text@.len(),
            digits == text@.subrange(start as int, len as int),
            digits.len() == 6,
            all_hex(digits.take(i as int)),
            value == hex_value(digits.take(i as int)),
            value < sixteen_to(i as nat),
        decreases 6 - i,
    {
        let c = text.get_char(start + i);
        assert(c == digits[i as int]);
        proof {
            reveal_with_fuel(sixteen_to, 7);
            assert(digits.take(i + 1).drop_last() =~= digits.take(i as int));
        }
        match hex_digit_of(c) {
            Some(v) => {
                value = value * 16 + v;
            },
            None => {
                assert(!all_hex(digits));
                return Err(ErrorKind::InvalidArgument);
            },
        }
        proof {
            let next = digits.take(i + 1);
            assert forall|j: int| 0 <= j < next.len() implies hex_digit(#[trigger] next[j])
                is Some by {
                if j < i {
                    assert(next[j] == digits.take(i as int)[j]);
                }
            }
        }
        i += 1;
    }
    proof {
        assert(digits.take(6) =~= digits);
        reveal_with_fuel(sixteen_to, 7);
    }
    Ok(value)
}

/// The colour of a role: the one that the text writes, or the default
/// where no text is given.
pub fn colour_or_default(text: Option<&str>) -> (r: Result<u32, ErrorKind>)
    ensures
        r == match text {
            None => Ok::<u32, ErrorKind>(DEFAULT_COLOUR),
            Some(t) => if is_colour(t@) {
                Ok::<u32, ErrorKind>(colour_value(t@) as u32)
            } else {
                Err::<u32, ErrorKind>(ErrorKind::InvalidArgument)
            },
        },
{
    match text {
        None => Ok(DEFAULT_COLOUR),
        Some(t) => parse_colour(t),
    }
}

} // verus!
