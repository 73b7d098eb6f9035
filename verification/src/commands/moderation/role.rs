//! Managing roles.

use vstd::prelude::*;
use vstd::string::*;
use crate::batch::{BatchAction, BatchRun, BatchView, Tally};
use crate::colour::{colour_or_default, colour_value, is_colour, DEFAULT_COLOUR};
use crate::confirm::{
    effect, expiry, Answer, ConfirmationAction, ConfirmationEvent, ConfirmationRequest,
    ConfirmationState,
};
use crate::error::ErrorKind;
use crate::roster::{holders, members_with_role, Member};
use crate::text::{decimal, decimal_text};

verus! {

/// What to do about a role and a member.
#[derive(Clone, Copy, Debug, PartialEq, Eq, Structural)]
pub enum RoleChange {
    /// The role is not below the highest role of who asks: change nothing.
    Refused,
    /// Give the member the role.
    Add,
    /// Take the role from the member.
    Remove,
    /// The member is already as asked for: change nothing.
    Keep,
}

/// A role at `role_position` is out of reach of somebody whose highest
/// role is at `highest_position`.
pub open spec fn outranks(role_position: u16, highest_position: u16) -> bool {
    role_position >= highest_position
}

/// Whether the role is out of reach of who asks.
pub fn is_out_of_reach(role_position: u16, highest_position: u16) -> (r: bool)
    ensures
        r == outranks(role_position, highest_position),
{
    role_position >= highest_position
}

/// Gives the member the role, or takes it away if the member has it.
pub fn role(role_position: u16, highest_position: u16, has_role: bool) -> (r: RoleChange)
    ensures
        r == if outranks(role_position, highest_position) {
            RoleChange::Refused
        } else if has_role {
            RoleChange::Remove
        } else {
            RoleChange::Add
        },
{
    if role_position >= highest_position {
        RoleChange::Refused
    } else if has_role {
        RoleChange::Remove
    } else {
        RoleChange::Add
    }
}

/// Gives the member the role, unless the member has it.
pub fn add(role_position: u16, highest_position: u16, has_role: bool) -> (r: RoleChange)
    ensures
        r == if outranks(role_position, highest_position) {
            RoleChange::Refused
        } else if has_role {
            RoleChange::Keep
        } else {
            RoleChange::Add
        },
{
    if role_position >= highest_position {
        RoleChange::Refused
    } else if has_role {
        RoleChange::Keep
    } else {
        RoleChange::Add
    }
}

/// Takes the role from the member, if the member has it.
pub fn remove(role_position: u16, highest_position: u16, has_role: bool) -> (r: RoleChange)
    ensures
        r == if outranks(role_position, highest_position) {
            RoleChange::Refused
        } else if has_role {
            RoleChange::Remove
        } else {
            RoleChange::Keep
        },
{
    if role_position >= highest_position {
        RoleChange::Refused
    } else if has_role {
        RoleChange::Remove
    } else {
        RoleChange::Keep
    }
}

/// A role to be created.
#[derive(Clone, Debug, PartialEq, Eq)]
pub struct RoleDraft {
    pub name: String,
    pub colour: u32,
    pub mentionable: bool,
    pub hoist: bool,
}

/// The changes to make to a role.
#[derive(Clone, Debug, PartialEq, Eq)]
pub struct RoleEdit {
    pub name: String,
    pub colour: u32,
    pub hoist: bool,
}

/// The value of an optional switch that is off unless given.
pub open spec fn or_false(flag: Option<bool>) -> bool {
    match flag {
        Some(b) => b,
        None => false,
    }
}

/// The colour that an optional text asks for, if it is well written.
pub open spec fn wanted_colour(colour: Option<&str>) -> Option<u32> {
    match colour {
        None => Some(DEFAULT_COLOUR),
        Some(text) => if is_colour(text@) {
            Some(colour_value(text@) as u32)
        } else {
            None
        },
    }
}

/// The role to create: black where no colour is given, neither
/// mentionable nor hoisted unless asked for. Fails with `InvalidArgument`
/// on a colour that is not well written.
pub fn create(
    name: String,
    colour: Option<&str>,
    mentionable: Option<bool>,
    hoisted: Option<bool>,
) -> (r: Result<RoleDraft, ErrorKind>)
    ensures
        match wanted_colour(colour) {
            Some(value) => r == Ok::<RoleDraft, ErrorKind>(
                RoleDraft {
                    name,
                    colour: value,
                    mentionable: or_false(mentionable),
                    hoist: or_false(hoisted),
                },
            ),
            None => r == Err::<RoleDraft, ErrorKind>(ErrorKind::InvalidArgument),
        },
{
    match colour_or_default(colour) {
        Ok(value) => Ok(
            RoleDraft {
                name,
                colour: value,
                mentionable: match mentionable {
                    Some(b) => b,
                    None => false,
                },
                hoist: match hoisted {
                    Some(b) => b,
                    None => false,
                },
            },
        ),
        Err(e) => Err(e),
    }
}

/// The changes to make to a role: the name and the hoisting stay as they
/// are unless given, the colour is black unless given. Fails with
/// `InvalidArgument` on a colour that is not well written.
pub fn edit(
    current_name: String,
    current_hoist: bool,
    name: Option<String>,
    colour: Option<&str>,
    hoisted: Option<bool>,
) -> (r: Result<RoleEdit, ErrorKind>)
    ensures
        match wanted_colour(colour) {
            Some(value) => r == Ok::<RoleEdit, ErrorKind>(
                RoleEdit {
                    name: match name {
                        Some(n) => n,
                        None => current_name,
                    },
                    colour: value,
                    hoist: match hoisted {
                        Some(b) => b,
                        None => current_hoist,
                    },
                },
            ),
            None => r == Err::<RoleEdit, ErrorKind>(ErrorKind::InvalidArgument),
        },
{
    match colour_or_default(colour) {
        Ok(value) => Ok(
            RoleEdit {
                name: match name {
                    Some(n) => n,
                    None => current_name,
                },
                colour: value,
                hoist: match hoisted {
                    Some(b) => b,
                    None => current_hoist,
                },
            },
        ),
        Err(e) => Err(e),
    }
}

/// The number of members that hold a role: for the role of everyone the
/// size of the guild, else the count over the roster.
pub fn info(
    role: u64,
    everyone_role: u64,
    guild_member_count: u64,
    members: &Vec<Member>,
) -> (r: u64)
    ensures
        r == if role == everyone_role {
            guild_member_count as nat
        } else {
            holders(members@, role).len()
        },
{
    if role == everyone_role {
        guild_member_count
    } else {
        members_with_role(members, role).len() as u64
    }
}

/// Why a role is not removed from everybody.
#[derive(Clone, Copy, Debug, PartialEq, Eq, Structural)]
pub enum Refusal {
    /// The role of everyone cannot be taken from anybody.
    EveryoneRole,
    /// The role is not below the highest role of who asks.
    OutOfReach,
}

/// Something that happens while a role is removed from everybody.
#[derive(Clone, Copy, Debug, PartialEq, Eq)]
pub enum RallEvent {
    /// Something happened to the request for confirmation.
    Confirmation(ConfirmationEvent),
    /// The removal that was asked for last ended this way.
    Removal(Result<(), ErrorKind>),
}

/// What the caller is to do next.
#[derive(Clone, Copy, Debug, PartialEq, Eq, Structural)]
pub enum RallAction {
    /// Tell who asked that the command is refused.
    ReportRefused(Refusal),
    /// Wait for the answer to the request.
    AwaitAnswer,
    /// Take the role from this member, then say how it went.
    RemoveRole(u64),
    /// Tell who asked that the removal was called off.
    ReportCancelled,
    /// Tell who asked that the time for an answer was up.
    ReportTimedOut,
    /// Tell who asked how many removals succeeded and failed.
    ReportDone(Tally),
}

/// Where the removal of a role from everybody stands.
#[derive(Debug)]
pub enum RallState {
    /// The command was refused.
    Refused(Refusal),
    /// The request for confirmation is out; these members hold the role.
    Awaiting { request: ConfirmationRequest, members: Vec<u64> },
    /// Confirmed: the removals are under way, or over.
    Running(BatchRun),
    /// Who asked said no.
    Cancelled,
    /// Nobody answered in time.
    TimedOut,
}

/// What a state of the removal consists of.
pub enum RallView {
    Refused(Refusal),
    Awaiting { prompt: Seq<char>, awaiting_actor: u64, expires_at: u64, members: Seq<u64> },
    Running(BatchView),
    Cancelled,
    TimedOut,
}

impl View for RallState {
    type V = RallView;

    open spec fn view(&self) -> RallView {
        match self {
            RallState::Refused(refusal) => RallView::Refused(*refusal),
            RallState::Awaiting { request, members } => RallView::Awaiting {
                prompt: request.prompt@,
                awaiting_actor: request.awaiting_actor,
                expires_at: request.expires_at,
                members: members@,
            },
            RallState::Running(run) => RallView::Running(run@),
            RallState::Cancelled => RallView::Cancelled,
            RallState::TimedOut => RallView::TimedOut,
        }
    }
}

/// The question put to who asked for the removal.
pub open spec fn rall_prompt(role_name: Seq<char>, holders: nat) -> Seq<char> {
    "Confirm removal of **"@ + role_name + "** from **_"@ + decimal(holders) + "_** members?"@
}

impl RallView {
    /// The state in which the command starts.
    pub open spec fn start(
        role: u64,
        role_name: Seq<char>,
        everyone_role: u64,
        role_position: u16,
        highest_position: u16,
        members: Seq<Member>,
        actor: u64,
        now: u64,
    ) -> RallView {
        if role == everyone_role {
            RallView::Refused(Refusal::EveryoneRole)
        } else if outranks(role_position, highest_position) {
            RallView::Refused(Refusal::OutOfReach)
        } else {
            RallView::Awaiting {
                prompt: rall_prompt(role_name, holders(members, role).len()),
                awaiting_actor: actor,
                expires_at: expiry(now),
                members: holders(members, role),
            }
        }
    }

    /// The state after `event`. While the request is out only what
    /// happens to the request counts; while removals run only their
    /// outcomes count; a state in which nothing is left to do stays.
    pub open spec fn step(self, event: RallEvent) -> RallView {
        match (self, event) {
            (
                RallView::Awaiting { awaiting_actor, expires_at, members, .. },
                RallEvent::Confirmation(e),
            ) => {
                match effect(awaiting_actor, expires_at, e) {
                    ConfirmationAction::KeepWaiting => self,
                    ConfirmationAction::Proceed => RallView::Running(
                        BatchView { items: members, outcomes: Seq::empty() },
                    ),
                    ConfirmationAction::ReportRejected => RallView::Cancelled,
                    ConfirmationAction::ReportExpired => RallView::TimedOut,
                }
            },
            (RallView::Running(run), RallEvent::Removal(outcome)) => RallView::Running(
                run.recorded(outcome is Ok),
            ),
            _ => self,
        }
    }

    /// What the caller is to do in this state.
    pub open spec fn action(self) -> RallAction {
        match self {
            RallView::Refused(refusal) => RallAction::ReportRefused(refusal),
            RallView::Awaiting { .. } => RallAction::AwaitAnswer,
            RallView::Running(run) => match run.action() {
                BatchAction::Perform(member) => RallAction::RemoveRole(member),
                BatchAction::Report(tally) => RallAction::ReportDone(tally),
            },
            RallView::Cancelled => RallAction::ReportCancelled,
            RallView::TimedOut => RallAction::ReportTimedOut,
        }
    }

    /// In this state no role will ever be removed again.
    pub open spec fn settled(self) -> bool {
        match self {
            RallView::Refused(_) | RallView::Cancelled | RallView::TimedOut => true,
            RallView::Awaiting { .. } => false,
            RallView::Running(run) => run.finished(),
        }
    }
}

/// Starts the removal of a role from everybody who holds it: refuses the
/// role of everyone and a role out of reach, and else asks `actor` at the
/// instant `now` to confirm.
pub fn rall(
    role: u64,
    role_name: &str,
    everyone_role: u64,
    role_position: u16,
    highest_position: u16,
    members: &Vec<Member>,
    actor: u64,
    now: u64,
) -> (r: RallState)
    ensures
        r@ == RallView::start(
            role,
            role_name@,
            everyone_role,
            role_position,
            highest_position,
            members@,
            actor,
            now,
        ),
{
    if role == everyone_role {
        return RallState::Refused(Refusal::EveryoneRole);
    }
    if is_out_of_reach(role_position, highest_position) {
        return RallState::Refused(Refusal::OutOfReach);
    }
    let holding = members_with_role(members, role);
    let mut prompt = "Confirm removal of **".to_owned();
    prompt.append(role_name);
    prompt.append("** from **_");
    prompt.append(decimal_text(holding.len() as u128).as_str());
    prompt.append("_** members?");
    RallState::Awaiting { request: ConfirmationRequest::new(prompt, actor, now), members: holding }
}

impl RallState {
    /// The state after `event`.
    pub fn step(self, event: RallEvent) -> (r: RallState)
        ensures
            r@ == self@.step(event),
    {
        match self {
            RallState::Awaiting { request, members } => match event {
                RallEvent::Confirmation(e) => {
                    match ConfirmationState::Proposed(request).step(e) {
                        ConfirmationState::Proposed(request) => RallState::Awaiting {
                            request,
                            members,
                        },
                        ConfirmationState::Confirmed => RallState::Running(
                            BatchRun::start(members),
                        ),
                        ConfirmationState::Rejected => RallState::Cancelled,
                        ConfirmationState::Expired => RallState::TimedOut,
                    }
                },
                RallEvent::Removal(_) => RallState::Awaiting { request, members },
            },
            RallState::Running(run) => match event {
                RallEvent::Removal(outcome) => RallState::Running(run.record(outcome)),
                RallEvent::Confirmation(_) => RallState::Running(run),
            },
            RallState::Refused(refusal) => RallState::Refused(refusal),
            RallState::Cancelled => RallState::Cancelled,
            RallState::TimedOut => RallState::TimedOut,
        }
    }

    /// What the caller is to do in this state.
    pub fn action(&self) -> (r: RallAction)
        ensures
            r == self@.action(),
    {
        match self {
            RallState::Refused(refusal) => RallAction::ReportRefused(*refusal),
            RallState::Awaiting { .. } => RallAction::AwaitAnswer,
            RallState::Running(run) => match run.action() {
                BatchAction::Perform(member) => RallAction::RemoveRole(member),
                BatchAction::Report(tally) => RallAction::ReportDone(tally),
            },
            RallState::Cancelled => RallAction::ReportCancelled,
            RallState::TimedOut => RallAction::ReportTimedOut,
        }
    }
}

/// The state after each of `events` in turn.
pub open spec fn rall_after(state: RallView, events: Seq<RallEvent>) -> RallView
    decreases events.len(),
{
    if events.len() == 0 {
        state
    } else {
        rall_after(state, events.drop_last()).step(events.last())
    }
}

/// The event is the yes, in time, of the member that `waiting` waits for.
pub open spec fn confirms(waiting: RallView, event: RallEvent) -> bool {
    waiting matches RallView::Awaiting { awaiting_actor, expires_at, .. } && event
        matches RallEvent::Confirmation(ConfirmationEvent::Interaction { actor, answer, at })
        && actor == awaiting_actor && answer == Answer::Yes && at < expires_at
}

/// Whatever happens, no role is removed unless the member who was asked
/// says yes in time: not when the time is up, not when somebody else
/// answers, not when that member says no.
pub proof fn lemma_unconfirmed_removes_nothing(waiting: RallView, events: Seq<RallEvent>)
    requires
        waiting is Awaiting,
        forall|i: int| 0 <= i < events.len() ==> !confirms(waiting, #[trigger] events[i]),
    ensures
        !(rall_after(waiting, events).action() is RemoveRole),
        rall_after(waiting, events) == waiting || rall_after(waiting, events) is Cancelled
            || rall_after(waiting, events) is TimedOut,
    decreases events.len(),
{
    if events.len() > 0 {
        let front = events.drop_last();
        assert forall|i: int| 0 <= i < front.len() implies !confirms(
            waiting,
            #[trigger] front[i],
        ) by {
            assert(front[i] == events[i]);
        }
        lemma_unconfirmed_removes_nothing(waiting, front);
        assert(!confirms(waiting, events[events.len() - 1]));
    }
}

/// Once nothing is left to do, nothing happens any more: no event leads
/// to the removal of a role.
pub proof fn lemma_settled_stays(state: RallView, events: Seq<RallEvent>)
    requires
        state.settled(),
    ensures
        rall_after(state, events) == state,
        !(rall_after(state, events).action() is RemoveRole),
    decreases events.len(),
{
    if events.len() > 0 {
        lemma_settled_stays(state, events.drop_last());
    }
}

/// While the request is out, whatever anybody but who asked answers
/// changes nothing.
pub proof fn lemma_rall_ignores_others(waiting: RallView, event: ConfirmationEvent)
    requires
        waiting matches RallView::Awaiting { awaiting_actor, .. } && event
            matches ConfirmationEvent::Interaction { actor, .. } && actor != awaiting_actor,
    ensures
        waiting.step(RallEvent::Confirmation(event)) == waiting,
{
}

/// When the time is up with the request still out, the removal is over
/// before it began.
pub proof fn lemma_rall_times_out(waiting: RallView, now: u64)
    requires
        waiting matches RallView::Awaiting { expires_at, .. } && now >= expires_at,
    ensures
        waiting.step(RallEvent::Confirmation(ConfirmationEvent::Elapsed { now }))
            == RallView::TimedOut,
        RallView::TimedOut.settled(),
{
}

} // verus!
