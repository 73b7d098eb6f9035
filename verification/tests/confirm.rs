use modbot::confirm::{
    Answer, ConfirmationAction, ConfirmationEvent, ConfirmationRequest, ConfirmationState,
    CONFIRMATION_WINDOW_MILLIS,
};

fn request() -> ConfirmationRequest {
    ConfirmationRequest::new("Sure?".to_string(), 42, 1_000)
}

fn answer(actor: u64, answer: Answer, at: u64) -> ConfirmationEvent {
    ConfirmationEvent::Interaction { actor, answer, at }
}

#[test]
fn a_request_waits_five_minutes() {
    let r = request();
    assert_eq!(CONFIRMATION_WINDOW_MILLIS, 300_000);
    assert_eq!(r.expires_at, 301_000);
    assert_eq!(r.awaiting_actor, 42);
    assert_eq!(r.prompt, "Sure?");
    assert_eq!(ConfirmationRequest::new(String::new(), 1, u64::MAX - 5).expires_at, u64::MAX);
    assert_eq!(ConfirmationRequest::new(String::new(), 1, u64::MAX - 300_000).expires_at, u64::MAX);
    assert_eq!(ConfirmationRequest::new(String::new(), 1, 0).expires_at, 300_000);
}

#[test]
fn the_awaited_member_confirms_or_rejects() {
    let yes = ConfirmationState::propose(request()).step(answer(42, Answer::Yes, 2_000));
    assert_eq!(yes, ConfirmationState::Confirmed);
    assert_eq!(yes.action(), ConfirmationAction::Proceed);
    let no = ConfirmationState::propose(request()).step(answer(42, Answer::No, 300_999));
    assert_eq!(no, ConfirmationState::Rejected);
    assert_eq!(no.action(), ConfirmationAction::ReportRejected);
}

#[test]
fn without_an_answer_in_time_the_request_expires() {
    let waiting = ConfirmationState::propose(request());
    assert_eq!(waiting.action(), ConfirmationAction::KeepWaiting);
    let still =
        waiting.step(ConfirmationEvent::Elapsed { now: 300_999 });
    assert_eq!(still, ConfirmationState::Proposed(request()));
    let expired = still.step(ConfirmationEvent::Elapsed { now: 301_000 });
    assert_eq!(expired, ConfirmationState::Expired);
    assert_eq!(expired.action(), ConfirmationAction::ReportExpired);
    assert_ne!(expired.action(), ConfirmationAction::Proceed);
    let late = ConfirmationState::propose(request()).step(answer(42, Answer::Yes, 301_000));
    assert_eq!(late, ConfirmationState::Expired);
    assert_eq!(request().resolve(None), ConfirmationState::Expired);
}

#[test]
fn other_actors_do_not_resolve_the_wait() {
    let mut state = ConfirmationState::propose(request());
    for (actor, reply, at) in
        [(41, Answer::Yes, 2_000), (43, Answer::No, 2_500), (0, Answer::Yes, 999_999)]
    {
        state = state.step(answer(actor, reply, at));
        assert_eq!(state, ConfirmationState::Proposed(request()));
        assert!(!state.is_terminal());
    }
    assert_eq!(state.step(answer(42, Answer::Yes, 3_000)), ConfirmationState::Confirmed);
}

#[test]
fn an_ended_request_stays_as_it_is() {
    for end in
        [ConfirmationState::Confirmed, ConfirmationState::Rejected, ConfirmationState::Expired]
    {
        assert!(end.is_terminal());
        for event in [
            answer(42, Answer::Yes, 2_000),
            answer(42, Answer::No, 2_000),
            answer(7, Answer::Yes, 2_000),
            ConfirmationEvent::Elapsed { now: u64::MAX },
        ] {
            assert_eq!(end.clone().step(event), end);
        }
    }
}

#[test]
fn a_single_wait_resolves_the_request() {
    assert_eq!(request().resolve(Some(Answer::Yes)), ConfirmationState::Confirmed);
    assert_eq!(request().resolve(Some(Answer::No)), ConfirmationState::Rejected);
    assert_eq!(request().resolve(None), ConfirmationState::Expired);
}
