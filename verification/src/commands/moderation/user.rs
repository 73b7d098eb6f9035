//! Timing members out, banning and kicking them.

use vstd::prelude::*;
use vstd::string::*;
use crate::duration::{read_millis, text_millis};
use crate::error::ErrorKind;

pub use crate::commands::moderation::role::role;

verus! {

/// The span of a timeout for which none was given.
pub const DEFAULT_TIMEOUT: &'static str = "1h";

/// What to do about a member who is to be timed out.
#[derive(Clone, Copy, Debug, PartialEq, Eq, Structural)]
pub enum TimeoutDecision {
    /// Time the member out until this instant, in milliseconds.
    Apply { until_millis: i64 },
    /// The member is under a timeout already: change nothing.
    AlreadyTimedOut,
}

/// What to do about a member whose timeout is to end.
#[derive(Clone, Copy, Debug, PartialEq, Eq, Structural)]
pub enum UntimeoutDecision {
    /// End the timeout.
    Lift,
    /// The member is under no timeout: change nothing.
    NotTimedOut,
}

/// The instant until which a member is timed out; zero where it is not.
pub open spec fn disabled_until(until_millis: Option<i64>) -> i64 {
    match until_millis {
        Some(until) => until,
        None => 0,
    }
}

/// The decision on a timeout of `span` milliseconds asked for at `now`.
pub open spec fn timeout_decision(
    span: Option<nat>,
    now_millis: i64,
    until_millis: Option<i64>,
) -> Result<TimeoutDecision, ErrorKind> {
    match span {
        None => Err(ErrorKind::InvalidArgument),
        Some(millis) => if now_millis + millis > i64::MAX {
            Err(ErrorKind::InvalidArgument)
        } else if disabled_until(until_millis) <= now_millis {
            Ok(TimeoutDecision::Apply { until_millis: (now_millis + millis) as i64 })
        } else {
            Ok(TimeoutDecision::AlreadyTimedOut)
        },
    }
}

/// Decides on a timeout, given the span that was read from the command.
/// A span that could not be read, or that ends beyond the last instant,
/// fails with `InvalidArgument`.
pub fn decide_timeout(
    span: Result<u128, ErrorKind>,
    now_millis: i64,
    until_millis: Option<i64>,
) -> (r: Result<TimeoutDecision, ErrorKind>)
    ensures
        r == timeout_decision(
            match span {
                Ok(millis) => Some(millis as nat),
                Err(_) => None,
            },
            now_millis,
            until_millis,
        ),
{
    match span {
        Err(_) => Err(ErrorKind::InvalidArgument),
        Ok(millis) => {
            if millis > u64::MAX as u128 {
                return Err(ErrorKind::InvalidArgument);
            }
            let end = now_millis as i128 + millis as i128;
            if end > i64::MAX as i128 {
                return Err(ErrorKind::InvalidArgument);
            }
            let until = end as i64;
            let current = match until_millis {
                Some(until) => until,
                None => 0,
            };
            if current <= now_millis {
                Ok(TimeoutDecision::Apply { until_millis: until })
            } else {
                Ok(TimeoutDecision::AlreadyTimedOut)
            }
        },
    }
}

/// Decides on the timeout of a member for the span that `time` writes,
/// or for an hour where none is given.
pub fn timeout(
    time: Option<&str>,
    now_millis: i64,
    until_millis: Option<i64>,
) -> (r: Result<TimeoutDecision, ErrorKind>)
    ensures
        r == timeout_decision(
            text_millis(
                match time {
                    Some(text) => text@,
                    None => DEFAULT_TIMEOUT@,
                },
            ),
            now_millis,
            until_millis,
        ),
{
    let text = match time {
        Some(text) => text,
        None => DEFAULT_TIMEOUT,
    };
    decide_timeout(read_millis(text), now_millis, until_millis)
}

/// Decides on ending the timeout of a member.
pub fn untimeout(now_millis: i64, until_millis: Option<i64>) -> (r: UntimeoutDecision)
    ensures
        r == if disabled_until(until_millis) >= now_millis {
            UntimeoutDecision::Lift
        } else {
            UntimeoutDecision::NotTimedOut
        },
{
    let current = match until_millis {
        Some(until) => until,
        None => 0,
    };
    if current >= now_millis {
        UntimeoutDecision::Lift
    } else {
        UntimeoutDecision::NotTimedOut
    }
}

/// The reason that goes on record: the one given, or who asked.
pub open spec fn audit_reason(reason: Option<String>, author: Seq<char>) -> Seq<char> {
    match reason {
        Some(text) => text@,
        None => "Requested by "@ + author,
    }
}

fn reason_or_author(reason: Option<String>, author: &str) -> (r: String)
    ensures
        r@ == audit_reason(reason, author@),
{
    match reason {
        Some(text) => text,
        None => {
            let mut r = "Requested by ".to_owned();
            r.append(author);
            r
        },
    }
}

/// A ban as it is sent to the platform.
#[derive(Clone, Debug, PartialEq, Eq)]
pub struct BanOrder {
    /// Of how many days back the member's messages are deleted.
    pub delete_message_days: u8,
    pub reason: String,
}

/// The ban of a member: no message is deleted, and the reason is the one
/// given, or who asked.
pub fn ban(reason: Option<String>, author: &str) -> (r: BanOrder)
    ensures
        r.delete_message_days == 0,
        r.reason@ == audit_reason(reason, author@),
{
    BanOrder { delete_message_days: 0, reason: reason_or_author(reason, author) }
}

/// The reason on record for lifting a ban.
pub fn unban(reason: Option<String>, author: &str) -> (r: String)
    ensures
        r@ == audit_reason(reason, author@),
{
    reason_or_author(reason, author)
}

/// The reason on record for a kick.
pub fn kick(reason: Option<String>, author: &str) -> (r: String)
    ensures
        r@ == audit_reason(reason, author@),
{
    reason_or_author(reason, author)
}

} // verus!
