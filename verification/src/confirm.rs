//! Asking for confirmation before a destructive action.
//!
//! A request waits for the answer of the member who asked for the action.
//! It ends with that member's yes or no, or when its time is up. Nobody
//! else's answer counts, and once it has ended nothing changes it.

use vstd::prelude::*;

verus! {

/// How long a request waits for an answer, in milliseconds.
pub const CONFIRMATION_WINDOW_MILLIS: u64 = 300_000;

/// What a member can answer to a request.
#[derive(Clone, Copy, Debug, PartialEq, Eq, Structural)]
pub enum Answer {
    Yes,
    No,
}

/// A question put to one member, with the time until which it waits.
#[derive(Clone, Debug, PartialEq, Eq)]
pub struct ConfirmationRequest {
    pub prompt: String,
    pub awaiting_actor: u64,
    /// The first instant, in milliseconds, at which no answer counts any more.
    pub expires_at: u64,
}

/// Where a request stands.
#[derive(Clone, Debug, PartialEq, Eq)]
pub enum ConfirmationState {
    /// Waiting for the answer.
    Proposed(ConfirmationRequest),
    /// The member said yes.
    Confirmed,
    /// The member said no.
    Rejected,
    /// The time was up before the member answered.
    Expired,
}

/// What can happen to a request.
#[derive(Clone, Copy, Debug, PartialEq, Eq, Structural)]
pub enum ConfirmationEvent {
    /// Somebody answered, at the given instant.
    Interaction { actor: u64, answer: Answer, at: u64 },
    /// Time has passed: it is now the given instant.
    Elapsed { now: u64 },
}

/// What the caller is to do about a request.
#[derive(Clone, Copy, Debug, PartialEq, Eq, Structural)]
pub enum ConfirmationAction {
    /// Go on waiting.
    KeepWaiting,
    /// Carry the action out.
    Proceed,
    /// Tell the member that the action was cancelled; change nothing.
    ReportRejected,
    /// Tell the member that the time was up; change nothing.
    ReportExpired,
}

/// The instant at which a request made at `now` expires.
pub open spec fn expiry(now: u64) -> u64 {
    if now + CONFIRMATION_WINDOW_MILLIS <= u64::MAX {
        (now + CONFIRMATION_WINDOW_MILLIS) as u64
    } else {
        u64::MAX
    }
}

/// What `event` does to a request that waits for `awaiting_actor` until
/// `expires_at`: the awaited member's answer in time settles it, the time
/// being up ends it, and anybody else's answer leaves it waiting.
pub open spec fn effect(
    awaiting_actor: u64,
    expires_at: u64,
    event: ConfirmationEvent,
) -> ConfirmationAction {
    match event {
        ConfirmationEvent::Interaction { actor, answer, at } => {
            if actor != awaiting_actor {
                ConfirmationAction::KeepWaiting
            } else if at >= expires_at {
                ConfirmationAction::ReportExpired
            } else {
                match answer {
                    Answer::Yes => ConfirmationAction::Proceed,
                    Answer::No => ConfirmationAction::ReportRejected,
                }
            }
        },
        ConfirmationEvent::Elapsed { now } => {
            if now >= expires_at {
                ConfirmationAction::ReportExpired
            } else {
                ConfirmationAction::KeepWaiting
            }
        },
    }
}

impl ConfirmationRequest {
    /// A request put to `actor` at the instant `now`.
    pub fn new(prompt: String, actor: u64, now: u64) -> (r: ConfirmationRequest)
        ensures
            r.prompt == prompt,
            r.awaiting_actor == actor,
            r.expires_at == expiry(now),
    {
        let expires_at = if now <= u64::MAX - CONFIRMATION_WINDOW_MILLIS {
            now + CONFIRMATION_WINDOW_MILLIS
        } else {
            u64::MAX
        };
        ConfirmationRequest { prompt, awaiting_actor: actor, expires_at }
    }

    /// Where the request stands once the wait for its member's answer is
    /// over: `None` says that the time was up.
    pub open spec fn spec_resolve(awaited: Option<Answer>) -> ConfirmationState {
        match awaited {
            Some(Answer::Yes) => ConfirmationState::Confirmed,
            Some(Answer::No) => ConfirmationState::Rejected,
            None => ConfirmationState::Expired,
        }
    }

    /// Where the request stands once the wait for its member's answer is
    /// over: `None` says that the time was up.
    pub fn resolve(self, awaited: Option<Answer>) -> (r: ConfirmationState)
        ensures
            r == ConfirmationRequest::spec_resolve(awaited),
            !(r is Proposed),
            awaited is None ==> r is Expired,
    {
        match awaited {
            Some(Answer::Yes) => ConfirmationState::Confirmed,
            Some(Answer::No) => ConfirmationState::Rejected,
            None => ConfirmationState::Expired,
        }
    }
}

impl ConfirmationState {
    /// The request has ended.
    pub open spec fn spec_is_terminal(self) -> bool {
        !(self is Proposed)
    }

    /// The state after `event`.
    pub open spec fn spec_step(self, event: ConfirmationEvent) -> ConfirmationState {
        match self {
            ConfirmationState::Proposed(request) => match effect(
                request.awaiting_actor,
                request.expires_at,
                event,
            ) {
                ConfirmationAction::KeepWaiting => self,
                ConfirmationAction::Proceed => ConfirmationState::Confirmed,
                ConfirmationAction::ReportRejected => ConfirmationState::Rejected,
                ConfirmationAction::ReportExpired => ConfirmationState::Expired,
            },
            _ => self,
        }
    }

    /// What the caller is to do in this state.
    pub open spec fn spec_action(self) -> ConfirmationAction {
        match self {
            ConfirmationState::Proposed(_) => ConfirmationAction::KeepWaiting,
            ConfirmationState::Confirmed => ConfirmationAction::Proceed,
            ConfirmationState::Rejected => ConfirmationAction::ReportRejected,
            ConfirmationState::Expired => ConfirmationAction::ReportExpired,
        }
    }

    /// A new request in its first state.
    pub fn propose(request: ConfirmationRequest) -> (r: ConfirmationState)
        ensures
            r == ConfirmationState::Proposed(request),
    {
        ConfirmationState::Proposed(request)
    }

    /// Whether the request has ended.
    pub fn is_terminal(&self) -> (r: bool)
        ensures
            r == self.spec_is_terminal(),
    {
        match self {
            ConfirmationState::Proposed(_) => false,
            _ => true,
        }
    }

    /// The state after `event`.
    pub fn step(self, event: ConfirmationEvent) -> (r: ConfirmationState)
        ensures
            r == self.spec_step(event),
    {
        match self {
            ConfirmationState::Proposed(request) => match event {
                ConfirmationEvent::Interaction { actor, answer, at } => {
                    if actor != request.awaiting_actor {
                        ConfirmationState::Proposed(request)
                    } else if at >= request.expires_at {
                        ConfirmationState::Expired
                    } else {
                        match answer {
                            Answer::Yes => ConfirmationState::Confirmed,
                            Answer::No => ConfirmationState::Rejected,
                        }
                    }
                },
                ConfirmationEvent::Elapsed { now } => {
                    if now >= request.expires_at {
                        ConfirmationState::Expired
                    } else {
                        ConfirmationState::Proposed(request)
                    }
                },
            },
            ConfirmationState::Confirmed => ConfirmationState::Confirmed,
            ConfirmationState::Rejected => ConfirmationState::Rejected,
            ConfirmationState::Expired => ConfirmationState::Expired,
        }
    }

    /// What the caller is to do in this state.
    pub fn action(&self) -> (r: ConfirmationAction)
        ensures
            r == self.spec_action(),
            r == ConfirmationAction::Proceed <==> *self is Confirmed,
    {
        match self {
            ConfirmationState::Proposed(_) => ConfirmationAction::KeepWaiting,
            ConfirmationState::Confirmed => ConfirmationAction::Proceed,
            ConfirmationState::Rejected => ConfirmationAction::ReportRejected,
            ConfirmationState::Expired => ConfirmationAction::ReportExpired,
        }
    }
}

/// The state after each of `events` in turn.
pub open spec fn after_events(
    state: ConfirmationState,
    events: Seq<ConfirmationEvent>,
) -> ConfirmationState
    decreases events.len(),
{
    if events.len() == 0 {
        state
    } else {
        after_events(state, events.drop_last()).spec_step(events.last())
    }
}

/// An answer from anybody but the member the request waits for changes
/// nothing.
pub proof fn lemma_other_actors_are_ignored(
    request: ConfirmationRequest,
    actor: u64,
    answer: Answer,
    at: u64,
)
    requires
        actor != request.awaiting_actor,
    ensures
        ConfirmationState::Proposed(request).spec_step(
            ConfirmationEvent::Interaction { actor, answer, at },
        ) == ConfirmationState::Proposed(request),
{
}

/// A request that has ended stays as it is.
pub proof fn lemma_terminal_is_final(state: ConfirmationState, event: ConfirmationEvent)
    requires
        state.spec_is_terminal(),
    ensures
        state.spec_step(event) == state,
{
}

/// An event that matches: an answer of the awaited member before the
/// request expires.
pub open spec fn answers_in_time(request: ConfirmationRequest, event: ConfirmationEvent) -> bool {
    event matches ConfirmationEvent::Interaction { actor, at, .. } && actor
        == request.awaiting_actor && at < request.expires_at
}

/// If none of the events is an answer of the awaited member in time, the
/// request is never confirmed, and once the time is up it has expired.
pub proof fn lemma_no_answer_expires(
    request: ConfirmationRequest,
    events: Seq<ConfirmationEvent>,
)
    requires
        forall|i: int| 0 <= i < events.len() ==> !answers_in_time(request, #[trigger] events[i]),
    ensures
        ({
            let end = after_events(ConfirmationState::Proposed(request), events);
            &&& end == ConfirmationState::Proposed(request) || end is Expired
            &&& end.spec_action() != ConfirmationAction::Proceed
            &&& (exists|i: int|
                0 <= i < events.len() && (#[trigger] events[i] matches ConfirmationEvent::Elapsed {
                    now,
                } && now >= request.expires_at)) ==> end is Expired
        }),
    decreases events.len(),
{
    if events.len() > 0 {
        let front = events.drop_last();
        assert forall|i: int| 0 <= i < front.len() implies !answers_in_time(
            request,
            #[trigger] front[i],
        ) by {
            assert(front[i] == events[i]);
        }
        lemma_no_answer_expires(request, front);
        let end = after_events(ConfirmationState::Proposed(request), events);
        assert(!answers_in_time(request, events[events.len() - 1]));
        if exists|i: int|
            0 <= i < events.len() && (#[trigger] events[i] matches ConfirmationEvent::Elapsed {
                now,
            } && now >= request.expires_at) {
            let i = choose|i: int|
                0 <= i < events.len() && (#[trigger] events[i] matches ConfirmationEvent::Elapsed {
                    now,
                } && now >= request.expires_at);
            if i < front.len() {
                assert(front[i] == events[i]);
            }
        }
    }
}

} // verus!
