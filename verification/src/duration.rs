//! Reading and writing spans of time.
//!
//! Spans are written the way people write them: `1h`, `2h 37min`,
//! `4.2s`. Reading and writing them is the work of the `humantime` crate;
//! this module decides which texts it is handed and what becomes of its
//! answers.

use vstd::prelude::*;
use crate::error::ErrorKind;

verus! {

/// The most digits a text may hold to be read as a span.
///
/// The parser adds up its terms in 64-bit seconds and is not safe on sums
/// at the very top of that range. A text of eleven digits stays far below
/// it, and no moderation span needs more.
pub const MAX_SPAN_DIGITS: usize = 11;

/// What to tell somebody whose span could not be read.
pub const SPAN_HINT: &'static str =
    "A span is numbers with units, like 1h or 2h 37min, with eleven digits at most";

/// The character is a decimal digit.
pub open spec fn is_digit(c: char) -> bool {
    '0' <= c <= '9'
}

/// The number of decimal digits in the text.
pub open spec fn digit_count(text: Seq<char>) -> nat {
    text.filter(|c: char| is_digit(c)).len()
}

/// The text holds few enough digits to be read as a span.
pub open spec fn is_readable(text: Seq<char>) -> bool {
    digit_count(text) <= MAX_SPAN_DIGITS
}

/// What `humantime::parse_duration` makes of a text: nothing where it
/// rejects it, else the span as whole seconds and the nanoseconds beyond
/// them.
pub uninterp spec fn parsed_span(text: Seq<char>) -> Option<(u64, u32)>;

/// What `humantime::format_duration` writes for a span of whole seconds.
pub uninterp spec fn written_span(seconds: u64) -> Seq<char>;

/// `humantime::parse_duration`. Not proved; the contract only names the
/// answer, which depends on the text alone. Texts with many digits are
/// kept from it: on some of them it panics.
#[verifier::external_body]
fn parse_span(text: &str) -> (r: Option<(u64, u32)>)
    requires
        is_readable(text@),
    ensures
        r == parsed_span(text@),
{
    match humantime::parse_duration(text) {
        Ok(span) => Some((span.as_secs(), span.subsec_nanos())),
        Err(_) => None,
    }
}

/// `humantime::format_duration` on a span of whole seconds. Not proved;
/// the contract only names the text, which depends on the span alone.
#[verifier::external_body]
pub(crate) fn write_span(seconds: u64) -> (r: String)
    ensures
        r@ == written_span(seconds),
{
    humantime::format_duration(std::time::Duration::from_secs(seconds)).to_string()
}

/// Whether the text holds few enough digits to be read as a span.
pub fn has_few_digits(text: &str) -> (r: bool)
    ensures
        r == is_readable(text@),
{
    let mut count: usize = 0;
    for c in iter: text.chars()
        invariant
            iter.seq() == text@,
            count == digit_count(text@.take(iter.index())),
            count <= MAX_SPAN_DIGITS,
    {
        proof {
            let i = iter.index();
            assert(text@.take(i + 1) =~= text@.take(i).push(text@[i]));
            text@.take(i).lemma_filter_push(text@[i], |c: char| is_digit(c));
        }
        if '0' <= c && c <= '9' {
            if count == MAX_SPAN_DIGITS {
                proof {
                    text@.lemma_filter_take_len(|c: char| is_digit(c), iter.index() + 1);
                }
                return false;
            }
            count += 1;
        }
    }
    proof {
        assert(text@.take(text@.len() as int) =~= text@);
    }
    true
}

/// The milliseconds in a span of `seconds` and `nanos`, rounded down.
pub open spec fn span_millis(seconds: u64, nanos: u32) -> nat {
    (seconds * 1000 + nanos / 1_000_000) as nat
}

/// The span that the text writes, in milliseconds, if it is readable and
/// writes one.
pub open spec fn text_millis(text: Seq<char>) -> Option<nat> {
    if !is_readable(text) {
        None
    } else {
        match parsed_span(text) {
            Some((seconds, nanos)) => Some(span_millis(seconds, nanos)),
            None => None,
        }
    }
}

/// The milliseconds in a span of `seconds` and `nanos`, rounded down.
pub fn millis_of(seconds: u64, nanos: u32) -> (r: u128)
    ensures
        r == span_millis(seconds, nanos),
{
    (seconds as u128) * 1000 + (nanos / 1_000_000) as u128
}

/// Reads a span in milliseconds. Fails with `InvalidArgument` on a text
/// with too many digits and on one that writes no span.
pub fn read_millis(text: &str) -> (r: Result<u128, ErrorKind>)
    ensures
        match text_millis(text@) {
            Some(millis) => r == Ok::<u128, ErrorKind>(millis as u128),
            None => r == Err::<u128, ErrorKind>(ErrorKind::InvalidArgument),
        },
{
    if !has_few_digits(text) {
        return Err(ErrorKind::InvalidArgument);
    }
    match parse_span(text) {
        Some((seconds, nanos)) => Ok(millis_of(seconds, nanos)),
        None => Err(ErrorKind::InvalidArgument),
    }
}

/// The whole seconds from the instant `since` to the instant `now`, both
/// in seconds since 1970; none where `now` is the earlier.
pub open spec fn seconds_between(since: i64, now: i64) -> u64 {
    if now > since {
        (now - since) as u64
    } else {
        0
    }
}

/// Writes how long ago `since` was at `now`, both in seconds since 1970.
pub fn write_age(since: i64, now: i64) -> (r: String)
    ensures
        r@ == written_span(seconds_between(since, now)),
{
    let seconds: u64 = if now > since {
        (now as i128 - since as i128) as u64
    } else {
        0
    };
    write_span(seconds)
}

} // verus!
