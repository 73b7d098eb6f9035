//! Commands that moderate nothing.

use vstd::prelude::*;
use vstd::string::*;
use crate::duration::{write_span, written_span};
use crate::text::{decimal, decimal_text};

verus! {

/// The first of the two accounts that may send direct messages through
/// the bot.
pub const FIRST_SENDER: u64 = 925033181990756392;

/// The second of them.
pub const SECOND_SENDER: u64 = 1031158144795156511;

/// The answer to a ping, given the latency in milliseconds and the time
/// the bot has been running in seconds.
pub fn ping(latency_millis: u128, uptime_seconds: u64) -> (r: String)
    ensures
        r@ == "Ping - "@ + decimal(latency_millis as nat) + " ms\nUptime - "@ + written_span(
            uptime_seconds,
        ),
{
    let mut r = "Ping - ".to_owned();
    r.append(decimal_text(latency_millis).as_str());
    r.append(" ms\nUptime - ");
    r.append(write_span(uptime_seconds).as_str());
    r
}

/// Whether `author` may send direct messages through the bot.
pub fn dm(author: u64) -> (r: bool)
    ensures
        r == (author == FIRST_SENDER || author == SECOND_SENDER),
{
    author == FIRST_SENDER || author == SECOND_SENDER
}

} // verus!
