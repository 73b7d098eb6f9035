//! Choosing the messages a purge deletes.
//!
//! A purge looks at a snapshot of a channel's most recent messages, keeps
//! those that a filter accepts, and asks for one bulk deletion of them, or
//! for none where nothing was kept.

use vstd::prelude::*;
use crate::error::ErrorKind;

verus! {

/// What a purge reads of a fetched message.
#[derive(Clone, Debug, PartialEq, Eq)]
pub struct Message {
    pub id: u64,
    pub author_id: u64,
    pub author_is_bot: bool,
    pub content: String,
    pub embed_count: usize,
    pub attachment_count: usize,
    pub user_mention_count: usize,
    pub role_mention_count: usize,
}

/// Which messages a purge deletes.
#[derive(Clone, Debug, PartialEq, Eq)]
pub enum MessageFilter {
    /// Every message.
    All,
    /// Messages that a bot wrote.
    Bot,
    /// Messages that no bot wrote.
    Human,
    /// Messages whose text holds the given word or phrase.
    Contains(String),
    /// Messages with an embed.
    Embeds,
    /// Messages with an attachment.
    Files,
    /// Messages that mention a user or a role.
    Mentions,
    /// Messages whose text holds a link.
    Links,
    /// Messages that the given user wrote.
    User(u64),
}

/// The regular expression a text has to match somewhere to count as
/// holding a link: `http://` or `https://` and at least one character that
/// is not white space.
pub const LINK_PATTERN: &'static str = "https?://\\S+";

/// `needle` stands in `haystack` from position `i` on.
pub open spec fn occurs_at(haystack: Seq<char>, needle: Seq<char>, i: int) -> bool {
    &&& 0 <= i
    &&& i + needle.len() <= haystack.len()
    &&& haystack.subrange(i, i + needle.len()) == needle
}

/// `needle` stands somewhere in `haystack`.
pub open spec fn contains_text(haystack: Seq<char>, needle: Seq<char>) -> bool {
    exists|i: int| occurs_at(haystack, needle, i)
}

/// What the `regex` crate answers for `pattern` on `haystack`: nothing
/// where it refuses to compile the pattern, else whether the pattern
/// matches anywhere in the text.
pub uninterp spec fn regex_search(pattern: Seq<char>, haystack: Seq<char>) -> Option<bool>;

/// Whether the filter can be decided for the message. Only the link filter
/// can fail to: it depends on the regular expression engine taking the
/// pattern.
pub open spec fn decides(filter: MessageFilter, message: Message) -> bool {
    filter is Links ==> regex_search(LINK_PATTERN@, message.content@) is Some
}

/// Whether the filter accepts the message.
pub open spec fn accepts(filter: MessageFilter, message: Message) -> bool {
    match filter {
        MessageFilter::All => true,
        MessageFilter::Bot => message.author_is_bot,
        MessageFilter::Human => !message.author_is_bot,
        MessageFilter::Contains(needle) => contains_text(message.content@, needle@),
        MessageFilter::Embeds => message.embed_count != 0,
        MessageFilter::Files => message.attachment_count != 0,
        MessageFilter::Mentions => message.role_mention_count != 0 || message.user_mention_count
            != 0,
        MessageFilter::Links => regex_search(LINK_PATTERN@, message.content@) == Some(true),
        MessageFilter::User(id) => message.author_id == id,
    }
}

/// `str::contains` with a string as the pattern: whether `needle` is a
/// substring of `haystack`. Not proved; the standard library documents it.
#[verifier::external_body]
fn text_contains(haystack: &str, needle: &str) -> (r: bool)
    ensures
        r == contains_text(haystack@, needle@),
{
    haystack.contains(needle)
}

/// `regex::Regex::new` on `pattern` and, where it compiles,
/// `Regex::is_match` on `haystack`. Not proved; the contract only names
/// the answer, which depends on the two texts alone.
#[verifier::external_body]
fn search(pattern: &str, haystack: &str) -> (r: Option<bool>)
    ensures
        r == regex_search(pattern@, haystack@),
{
    match regex::Regex::new(pattern) {
        Ok(re) => Some(re.is_match(haystack)),
        Err(_) => None,
    }
}

/// Turns the engine's answer into the link filter's verdict.
pub fn link_verdict(answer: Option<bool>) -> (r: Result<bool, ErrorKind>)
    ensures
        r == match answer {
            Some(found) => Ok::<bool, ErrorKind>(found),
            None => Err::<bool, ErrorKind>(ErrorKind::InvalidArgument),
        },
{
    match answer {
        Some(found) => Ok(found),
        None => Err(ErrorKind::InvalidArgument),
    }
}

impl MessageFilter {
    /// Whether the filter accepts the message. Fails with
    /// `InvalidArgument` where that cannot be decided.
    pub fn matches(&self, message: &Message) -> (r: Result<bool, ErrorKind>)
        ensures
            decides(*self, *message) ==> r == Ok::<bool, ErrorKind>(accepts(*self, *message)),
            !decides(*self, *message) ==> r == Err::<bool, ErrorKind>(ErrorKind::InvalidArgument),
    {
        match self {
            MessageFilter::All => Ok(true),
            MessageFilter::Bot => Ok(message.author_is_bot),
            MessageFilter::Human => Ok(!message.author_is_bot),
            MessageFilter::Contains(needle) => Ok(
                text_contains(message.content.as_str(), needle.as_str()),
            ),
            MessageFilter::Embeds => Ok(message.embed_count != 0),
            MessageFilter::Files => Ok(message.attachment_count != 0),
            MessageFilter::Mentions => Ok(
                message.role_mention_count != 0 || message.user_mention_count != 0,
            ),
            MessageFilter::Links => link_verdict(search(LINK_PATTERN, message.content.as_str())),
            MessageFilter::User(id) => Ok(message.author_id == *id),
        }
    }
}

/// The filter as a predicate on messages.
pub open spec fn acceptance(filter: MessageFilter) -> spec_fn(Message) -> bool {
    |message: Message| accepts(filter, message)
}

/// The messages a purge looks at: the first `max_batch` of the snapshot.
pub open spec fn considered(messages: Seq<Message>, max_batch: u16) -> Seq<Message> {
    if messages.len() <= max_batch {
        messages
    } else {
        messages.take(max_batch as int)
    }
}

/// The filter can be decided for every one of the messages.
pub open spec fn all_decided(messages: Seq<Message>, filter: MessageFilter) -> bool {
    forall|i: int| 0 <= i < messages.len() ==> decides(filter, #[trigger] messages[i])
}

/// The identifiers of the accepted messages, in the order of the snapshot.
pub open spec fn selected(messages: Seq<Message>, filter: MessageFilter) -> Seq<u64> {
    messages.filter(acceptance(filter)).map_values(|message: Message| message.id)
}

/// Taking one more message into account adds its identifier if the filter
/// accepts it, and changes nothing otherwise.
pub proof fn lemma_selected_push(messages: Seq<Message>, last: Message, filter: MessageFilter)
    ensures
        selected(messages.push(last), filter) == if accepts(filter, last) {
            selected(messages, filter).push(last.id)
        } else {
            selected(messages, filter)
        },
{
    let kept = messages.filter(acceptance(filter));
    messages.lemma_filter_push(last, acceptance(filter));
    if accepts(filter, last) {
        assert(messages.push(last).filter(acceptance(filter)) == kept.push(last));
        assert(kept.push(last).map_values(|message: Message| message.id) =~= kept.map_values(
            |message: Message| message.id,
        ).push(last.id));
    }
}

/// Every selected identifier is that of an accepted message of the
/// snapshot, and every accepted message's identifier is selected.
pub proof fn lemma_selected_members(messages: Seq<Message>, filter: MessageFilter, id: u64)
    ensures
        selected(messages, filter).contains(id) <==> exists|i: int|
            0 <= i < messages.len() && accepts(filter, #[trigger] messages[i]) && messages[i].id
                == id,
    decreases messages.len(),
{
    if messages.len() == 0 {
        assert(selected(messages, filter) =~= Seq::<u64>::empty());
    } else {
        let front = messages.drop_last();
        let last = messages.last();
        assert(messages =~= front.push(last));
        lemma_selected_push(front, last, filter);
        lemma_selected_members(front, filter, id);
        let now = selected(messages, filter);
        let before = selected(front, filter);
        if now.contains(id) {
            let k = choose|k: int| 0 <= k < now.len() && now[k] == id;
            if k < before.len() {
                assert(before[k] == id);
                assert(before.contains(id));
                let i = choose|i: int|
                    0 <= i < front.len() && accepts(filter, #[trigger] front[i]) && front[i].id
                        == id;
                assert(messages[i] == front[i]);
            } else {
                assert(accepts(filter, messages[messages.len() - 1]));
            }
        }
        if exists|i: int|
            0 <= i < messages.len() && accepts(filter, #[trigger] messages[i]) && messages[i].id
                == id {
            let i = choose|i: int|
                0 <= i < messages.len() && accepts(filter, #[trigger] messages[i])
                    && messages[i].id == id;
            if i < front.len() {
                assert(front[i] == messages[i]);
                assert(before.contains(id));
                let k = choose|k: int| 0 <= k < before.len() && before[k] == id;
                assert(now[k] == id);
            } else {
                assert(now[now.len() - 1] == id);
            }
        }
    }
}

/// The identifiers of the messages, among the first `max_batch` of the
/// snapshot, that the filter accepts, in the snapshot's order. Fails with
/// `InvalidArgument` where the filter cannot be decided for one of them.
pub fn select(
    messages: &Vec<Message>,
    filter: &MessageFilter,
    max_batch: u16,
) -> (r: Result<Vec<u64>, ErrorKind>)
    ensures
        match r {
            Ok(ids) => {
                &&& all_decided(considered(messages@, max_batch), *filter)
                &&& ids@ == selected(considered(messages@, max_batch), *filter)
            },
            Err(e) => {
                &&& e == ErrorKind::InvalidArgument
                &&& !all_decided(considered(messages@, max_batch), *filter)
            },
        },
{
    let n = if messages.len() <= max_batch as usize {
        messages.len()
    } else {
        max_batch as usize
    };
    let ghost scope = considered(messages@, max_batch);
    assert(scope =~= messages@.take(n as int));
    let mut ids: Vec<u64> = Vec::new();
    let mut i: usize = 0;
    assert(scope.take(0) =~= Seq::<Message>::empty());
    while i < n
        invariant
            i <= n,
            n == scope.len(),
            n <= messages.len(),
            scope == messages@.take(n as int),
            scope == considered(messages@, max_batch),
            all_decided(scope.take(i as int), *filter),
            ids@ == selected(scope.take(i as int), *filter),
        decreases n - i,
    {
        let message = &messages[i];
        assert(*message == scope[i as int]);
        proof {
            assert(scope.take(i + 1) =~= scope.take(i as int).push(scope[i as int]));
            lemma_selected_push(scope.take(i as int), scope[i as int], *filter);
        }
        match filter.matches(message) {
            Ok(accepted) => {
                if accepted {
                    ids.push(message.id);
                }
            },
            Err(e) => {
                assert(!decides(*filter, scope[i as int]));
                return Err(e);
            },
        }
        proof {
            let next = scope.take(i + 1);
            assert forall|j: int| 0 <= j < next.len() implies decides(*filter, #[trigger] next[j]) by {
                if j < i {
                    assert(next[j] == scope.take(i as int)[j]);
                }
            }
        }
        i += 1;
    }
    assert(scope.take(n as int) =~= scope);
    Ok(ids)
}

/// What a purge found, and so what is to be deleted.
#[derive(Clone, Debug, PartialEq, Eq)]
pub struct PurgePlan {
    /// The identifiers of the matching messages, in the snapshot's order.
    pub ids: Vec<u64>,
}

/// The step that follows a plan.
#[derive(Clone, Debug, PartialEq, Eq)]
pub enum PurgeAction {
    /// Nothing matched: no request is to be sent.
    Skip,
    /// One bulk deletion of these messages.
    BulkDelete(Vec<u64>),
}

/// How a purge ended.
#[derive(Clone, Copy, Debug, PartialEq, Eq, Structural)]
pub struct PurgeResult {
    pub matched_count: usize,
    pub deleted_count: usize,
}

impl PurgePlan {
    /// How the purge ends, given how the bulk deletion went, if one was
    /// sent. A plan without messages ends the same way whatever it is
    /// given.
    pub open spec fn spec_settle(
        self,
        deletion: Option<Result<(), ErrorKind>>,
    ) -> Result<PurgeResult, ErrorKind> {
        if self.ids@.len() == 0 {
            Ok(PurgeResult { matched_count: 0, deleted_count: 0 })
        } else {
            match deletion {
                Some(Ok(_)) => Ok(
                    PurgeResult {
                        matched_count: self.ids@.len() as usize,
                        deleted_count: self.ids@.len() as usize,
                    },
                ),
                Some(Err(e)) => Err(e),
                None => Ok(
                    PurgeResult { matched_count: self.ids@.len() as usize, deleted_count: 0 },
                ),
            }
        }
    }

    /// The step that follows this plan: a bulk deletion of what matched,
    /// and nothing at all where nothing matched.
    pub fn action(&self) -> (r: PurgeAction)
        ensures
            self.ids@.len() == 0 <==> r is Skip,
            r matches PurgeAction::BulkDelete(ids) ==> ids@ == self.ids@,
    {
        if self.ids.len() == 0 {
            PurgeAction::Skip
        } else {
            PurgeAction::BulkDelete(self.ids.clone())
        }
    }

    /// How the purge ends, given how the bulk deletion went, if one was
    /// sent: a failed deletion is the purge's failure.
    pub fn settle(
        &self,
        deletion: Option<Result<(), ErrorKind>>,
    ) -> (r: Result<PurgeResult, ErrorKind>)
        ensures
            r == self.spec_settle(deletion),
            self.ids@.len() == 0 ==> r == Ok::<PurgeResult, ErrorKind>(
                PurgeResult { matched_count: 0, deleted_count: 0 },
            ),
    {
        let matched = self.ids.len();
        if matched == 0 {
            return Ok(PurgeResult { matched_count: 0, deleted_count: 0 });
        }
        match deletion {
            Some(Ok(_)) => Ok(PurgeResult { matched_count: matched, deleted_count: matched }),
            Some(Err(e)) => Err(e),
            None => Ok(PurgeResult { matched_count: matched, deleted_count: 0 }),
        }
    }
}

/// Plans a purge of the snapshot: selects what the filter accepts among
/// the first `max_batch` messages.
pub fn plan_purge(
    messages: &Vec<Message>,
    filter: &MessageFilter,
    max_batch: u16,
) -> (r: Result<PurgePlan, ErrorKind>)
    ensures
        match r {
            Ok(plan) => {
                &&& all_decided(considered(messages@, max_batch), *filter)
                &&& plan.ids@ == selected(considered(messages@, max_batch), *filter)
            },
            Err(e) => {
                &&& e == ErrorKind::InvalidArgument
                &&& !all_decided(considered(messages@, max_batch), *filter)
            },
        },
{
    match select(messages, filter, max_batch) {
        Ok(ids) => Ok(PurgePlan { ids }),
        Err(e) => Err(e),
    }
}

} // verus!
