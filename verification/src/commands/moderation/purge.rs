//! Purging messages.
//!
//! Every command looks at the last messages of a channel, as many as
//! `amount` says and never more than a hundred, and plans the deletion of
//! those that its filter accepts.

use vstd::pervasive::unreached;
use vstd::prelude::*;
use crate::batch::{BatchRun, BatchView};
use crate::error::ErrorKind;
use crate::filter::{
    all_decided, considered, plan_purge, selected, Message, MessageFilter, PurgePlan,
};

verus! {

/// The most messages a purge looks at, and as many as it looks at where
/// no amount is given.
pub const MAX_AMOUNT: u8 = 100;

/// How many messages a purge fetches and looks at.
pub open spec fn spec_fetch_limit(amount: Option<u8>) -> u16 {
    match amount {
        Some(n) => if n <= MAX_AMOUNT {
            n as u16
        } else {
            MAX_AMOUNT as u16
        },
        None => MAX_AMOUNT as u16,
    }
}

/// How many messages a purge fetches and looks at.
#[verifier::when_used_as_spec(spec_fetch_limit)]
pub fn fetch_limit(amount: Option<u8>) -> (r: u16)
    ensures
        r == spec_fetch_limit(amount),
        r <= MAX_AMOUNT,
{
    match amount {
        Some(n) => if n <= MAX_AMOUNT {
            n as u16
        } else {
            MAX_AMOUNT as u16
        },
        None => MAX_AMOUNT as u16,
    }
}

/// What a purge with `filter` plans on this snapshot.
pub open spec fn planned(
    messages: Seq<Message>,
    amount: Option<u8>,
    filter: MessageFilter,
) -> Seq<u64> {
    selected(considered(messages, spec_fetch_limit(amount)), filter)
}

fn plan(messages: &Vec<Message>, amount: Option<u8>, filter: &MessageFilter) -> (r: PurgePlan)
    requires
        !(*filter is Links),
    ensures
        r.ids@ == planned(messages@, amount, *filter),
{
    let limit = fetch_limit(amount);
    match plan_purge(messages, filter, limit) {
        Ok(p) => p,
        Err(_) => {
            // Only the link filter can fail to decide.
            assert(all_decided(considered(messages@, limit), *filter));
            unreached()
        },
    }
}

/// Purges the last messages.
pub fn all(messages: &Vec<Message>, amount: Option<u8>) -> (r: PurgePlan)
    ensures
        r.ids@ == planned(messages@, amount, MessageFilter::All),
{
    plan(messages, amount, &MessageFilter::All)
}

/// Purges the messages that bots wrote.
pub fn bot(messages: &Vec<Message>, amount: Option<u8>) -> (r: PurgePlan)
    ensures
        r.ids@ == planned(messages@, amount, MessageFilter::Bot),
{
    plan(messages, amount, &MessageFilter::Bot)
}

/// Purges the messages whose text holds `search`.
pub fn contains(messages: &Vec<Message>, amount: Option<u8>, search: String) -> (r: PurgePlan)
    ensures
        r.ids@ == planned(messages@, amount, MessageFilter::Contains(search)),
{
    plan(messages, amount, &MessageFilter::Contains(search))
}

/// Purges the messages with an embed.
pub fn embeds(messages: &Vec<Message>, amount: Option<u8>) -> (r: PurgePlan)
    ensures
        r.ids@ == planned(messages@, amount, MessageFilter::Embeds),
{
    plan(messages, amount, &MessageFilter::Embeds)
}

/// Purges the messages that no bot wrote.
pub fn human(messages: &Vec<Message>, amount: Option<u8>) -> (r: PurgePlan)
    ensures
        r.ids@ == planned(messages@, amount, MessageFilter::Human),
{
    plan(messages, amount, &MessageFilter::Human)
}

/// Purges the messages with an attachment.
pub fn files(messages: &Vec<Message>, amount: Option<u8>) -> (r: PurgePlan)
    ensures
        r.ids@ == planned(messages@, amount, MessageFilter::Files),
{
    plan(messages, amount, &MessageFilter::Files)
}

/// Removes the reactions from the last messages, one message after the
/// other: the batch to run, of which none was tried yet.
pub fn reactions(messages: &Vec<Message>, amount: Option<u8>) -> (r: BatchRun)
    ensures
        r@ == (BatchView {
            items: planned(messages@, amount, MessageFilter::All),
            outcomes: Seq::empty(),
        }),
{
    BatchRun::start(plan(messages, amount, &MessageFilter::All).ids)
}

/// Purges the messages that the user `author` wrote.
pub fn user(messages: &Vec<Message>, amount: Option<u8>, author: u64) -> (r: PurgePlan)
    ensures
        r.ids@ == planned(messages@, amount, MessageFilter::User(author)),
{
    plan(messages, amount, &MessageFilter::User(author))
}

/// Purges the messages that mention a user or a role.
pub fn mentions(messages: &Vec<Message>, amount: Option<u8>) -> (r: PurgePlan)
    ensures
        r.ids@ == planned(messages@, amount, MessageFilter::Mentions),
{
    plan(messages, amount, &MessageFilter::Mentions)
}

/// Purges the messages whose text holds a link. Fails with
/// `InvalidArgument` where the link pattern cannot be decided for one of
/// the messages.
pub fn links(
    messages: &Vec<Message>,
    amount: Option<u8>,
) -> (r: Result<PurgePlan, ErrorKind>)
    ensures
        match r {
            Ok(p) => {
                &&& all_decided(
                    considered(messages@, spec_fetch_limit(amount)),
                    MessageFilter::Links,
                )
                &&& p.ids@ == planned(messages@, amount, MessageFilter::Links)
            },
            Err(e) => {
                &&& e == ErrorKind::InvalidArgument
                &&& !all_decided(
                    considered(messages@, spec_fetch_limit(amount)),
                    MessageFilter::Links,
                )
            },
        },
{
    plan_purge(messages, &MessageFilter::Links, fetch_limit(amount))
}

} // verus!
