use modbot::batch::Tally;
use modbot::colour::{colour_or_default, hex_digit_of, parse_colour};
use modbot::commands::moderation::role::{
    add, create, edit, info, is_out_of_reach, rall, remove, role, RallAction, RallEvent,
    RallState, Refusal, RoleChange, RoleDraft, RoleEdit,
};
use modbot::confirm::{Answer, ConfirmationEvent};
use modbot::error::ErrorKind;
use modbot::roster::{members_with_role, Member};

fn roster() -> Vec<Member> {
    vec![
        Member { id: 1, roles: vec![10, 20] },
        Member { id: 2, roles: vec![] },
        Member { id: 3, roles: vec![20] },
        Member { id: 4, roles: vec![30, 20, 10] },
        Member { id: 5, roles: vec![10] },
    ]
}

fn confirmation(actor: u64, answer: Answer, at: u64) -> RallEvent {
    RallEvent::Confirmation(ConfirmationEvent::Interaction { actor, answer, at })
}

fn started() -> RallState {
    rall(20, "muted", 7, 3, 9, &roster(), 42, 1_000)
}

#[test]
fn colours_are_six_hex_digits_with_or_without_a_hash() {
    assert_eq!(parse_colour("000000"), Ok(0));
    assert_eq!(parse_colour("ffffff"), Ok(0xFF_FFFF));
    assert_eq!(parse_colour("#FF8800"), Ok(0xFF_8800));
    assert_eq!(parse_colour("#ff8800"), Ok(0xFF_8800));
    assert_eq!(parse_colour("aBcDeF"), Ok(0xAB_CDEF));
    assert_eq!(parse_colour("123456"), Ok(0x12_3456));
    assert_eq!(parse_colour("#000001"), Ok(1));
}

#[test]
fn malformed_colours_are_invalid_arguments() {
    for text in [
        "", "#", "12345", "#12345", "1234567", "#1234567", "12345g", "#12345G", " 123456",
        "123456 ", "123456\n", "0x1234", "##12345", "12#456", "+12345", "-12345", "é12345",
        "１２３４５６",
    ] {
        assert_eq!(parse_colour(text), Err(ErrorKind::InvalidArgument), "{:?}", text);
    }
}

#[test]
fn hex_digits() {
    assert_eq!(hex_digit_of('0'), Some(0));
    assert_eq!(hex_digit_of('9'), Some(9));
    assert_eq!(hex_digit_of('a'), Some(10));
    assert_eq!(hex_digit_of('f'), Some(15));
    assert_eq!(hex_digit_of('A'), Some(10));
    assert_eq!(hex_digit_of('F'), Some(15));
    assert_eq!(hex_digit_of('g'), None);
    assert_eq!(hex_digit_of('G'), None);
    assert_eq!(hex_digit_of('/'), None);
    assert_eq!(hex_digit_of(':'), None);
    assert_eq!(hex_digit_of('@'), None);
    assert_eq!(hex_digit_of('`'), None);
}

#[test]
fn a_role_without_colour_is_black() {
    assert_eq!(colour_or_default(None), Ok(0));
    assert_eq!(colour_or_default(Some("#00ff00")), Ok(0x00_FF00));
    assert_eq!(colour_or_default(Some("green")), Err(ErrorKind::InvalidArgument));
}

#[test]
fn create_fills_in_defaults() {
    assert_eq!(
        create("mods".to_string(), None, None, None),
        Ok(RoleDraft { name: "mods".to_string(), colour: 0, mentionable: false, hoist: false })
    );
    assert_eq!(
        create("mods".to_string(), Some("#0000ff"), Some(true), Some(true)),
        Ok(RoleDraft { name: "mods".to_string(), colour: 255, mentionable: true, hoist: true })
    );
    assert_eq!(
        create("mods".to_string(), Some("blue"), Some(true), None),
        Err(ErrorKind::InvalidArgument)
    );
}

#[test]
fn edit_keeps_what_is_not_given() {
    assert_eq!(
        edit("old".to_string(), true, None, None, None),
        Ok(RoleEdit { name: "old".to_string(), colour: 0, hoist: true })
    );
    assert_eq!(
        edit("old".to_string(), true, Some("new".to_string()), Some("00000a"), Some(false)),
        Ok(RoleEdit { name: "new".to_string(), colour: 10, hoist: false })
    );
    assert_eq!(
        edit("old".to_string(), false, None, Some("#zzzzzz"), None),
        Err(ErrorKind::InvalidArgument)
    );
}

#[test]
fn roles_at_or_above_the_highest_are_out_of_reach() {
    assert!(is_out_of_reach(5, 5));
    assert!(is_out_of_reach(6, 5));
    assert!(!is_out_of_reach(4, 5));
    for has in [true, false] {
        assert_eq!(role(5, 5, has), RoleChange::Refused);
        assert_eq!(add(9, 5, has), RoleChange::Refused);
        assert_eq!(remove(5, 0, has), RoleChange::Refused);
    }
}

#[test]
fn role_toggles_add_adds_remove_removes() {
    assert_eq!(role(1, 5, true), RoleChange::Remove);
    assert_eq!(role(1, 5, false), RoleChange::Add);
    assert_eq!(add(1, 5, true), RoleChange::Keep);
    assert_eq!(add(1, 5, false), RoleChange::Add);
    assert_eq!(remove(1, 5, true), RoleChange::Remove);
    assert_eq!(remove(1, 5, false), RoleChange::Keep);
}

#[test]
fn members_with_a_role_come_in_roster_order() {
    let members = roster();
    assert_eq!(members_with_role(&members, 20), vec![1, 3, 4]);
    assert_eq!(members_with_role(&members, 10), vec![1, 4, 5]);
    assert_eq!(members_with_role(&members, 30), vec![4]);
    assert_eq!(members_with_role(&members, 99), Vec::<u64>::new());
    assert!(members[3].has_role(30));
    assert!(!members[1].has_role(30));
}

#[test]
fn info_counts_the_holders() {
    let members = roster();
    assert_eq!(info(20, 7, 1_000, &members), 3);
    assert_eq!(info(99, 7, 1_000, &members), 0);
    assert_eq!(info(7, 7, 1_000, &members), 1_000);
}

#[test]
fn rall_refuses_the_everyone_role_and_roles_out_of_reach() {
    let everyone = rall(7, "everyone", 7, 0, 9, &roster(), 42, 1_000);
    assert_eq!(everyone.action(), RallAction::ReportRefused(Refusal::EveryoneRole));
    let both = rall(7, "everyone", 7, 9, 9, &roster(), 42, 1_000);
    assert_eq!(both.action(), RallAction::ReportRefused(Refusal::EveryoneRole));
    let high = rall(20, "muted", 7, 9, 9, &roster(), 42, 1_000);
    assert_eq!(high.action(), RallAction::ReportRefused(Refusal::OutOfReach));
    let stays = high.step(confirmation(42, Answer::Yes, 1_001));
    assert_eq!(stays.action(), RallAction::ReportRefused(Refusal::OutOfReach));
}

#[test]
fn rall_asks_who_asked_to_confirm() {
    match started() {
        RallState::Awaiting { request, members } => {
            assert_eq!(request.prompt, "Confirm removal of **muted** from **_3_** members?");
            assert_eq!(request.awaiting_actor, 42);
            assert_eq!(request.expires_at, 301_000);
            assert_eq!(members, vec![1, 3, 4]);
        }
        other => panic!("{:?}", other),
    }
    assert_eq!(started().action(), RallAction::AwaitAnswer);
}

#[test]
fn rall_removes_from_every_holder_and_counts_failures() {
    let mut state = started().step(confirmation(42, Answer::Yes, 2_000));
    let outcomes = [Ok(()), Err(ErrorKind::Forbidden), Ok(())];
    let mut removed = Vec::new();
    let tally = loop {
        match state.action() {
            RallAction::RemoveRole(member) => {
                let outcome = outcomes[removed.len()];
                removed.push(member);
                state = state.step(confirmation(42, Answer::No, 2_001));
                state = state.step(RallEvent::Removal(outcome));
            }
            RallAction::ReportDone(tally) => break tally,
            other => panic!("{:?}", other),
        }
    };
    assert_eq!(removed, vec![1, 3, 4]);
    assert_eq!(tally, Tally { succeeded: 2, failed: 1 });
    let after = state.step(RallEvent::Removal(Ok(())));
    assert_eq!(after.action(), RallAction::ReportDone(tally));
}

#[test]
fn rall_times_out_without_removing_anything() {
    let waiting = started().step(RallEvent::Confirmation(ConfirmationEvent::Elapsed {
        now: 300_999,
    }));
    assert_eq!(waiting.action(), RallAction::AwaitAnswer);
    let mut state =
        waiting.step(RallEvent::Confirmation(ConfirmationEvent::Elapsed { now: 301_000 }));
    assert_eq!(state.action(), RallAction::ReportTimedOut);
    for event in [
        confirmation(42, Answer::Yes, 301_001),
        RallEvent::Removal(Ok(())),
        confirmation(42, Answer::Yes, 5),
    ] {
        state = state.step(event);
        assert_eq!(state.action(), RallAction::ReportTimedOut);
    }
    let late = started().step(confirmation(42, Answer::Yes, 301_000));
    assert_eq!(late.action(), RallAction::ReportTimedOut);
}

#[test]
fn rall_ignores_everybody_but_who_asked() {
    let mut state = started();
    for event in [
        confirmation(41, Answer::Yes, 2_000),
        confirmation(1, Answer::No, 2_000),
        confirmation(43, Answer::Yes, 400_000),
        RallEvent::Removal(Ok(())),
        RallEvent::Removal(Err(ErrorKind::Forbidden)),
    ] {
        state = state.step(event);
        assert_eq!(state.action(), RallAction::AwaitAnswer);
    }
    assert_eq!(
        state.step(confirmation(42, Answer::Yes, 2_000)).action(),
        RallAction::RemoveRole(1)
    );
}

#[test]
fn rall_is_called_off_by_a_no() {
    let state = started().step(confirmation(42, Answer::No, 2_000));
    assert_eq!(state.action(), RallAction::ReportCancelled);
    let after = state.step(confirmation(42, Answer::Yes, 2_001));
    assert_eq!(after.action(), RallAction::ReportCancelled);
}

#[test]
fn rall_of_a_role_nobody_holds_is_done_once_confirmed() {
    let state = rall(99, "ghost", 7, 3, 9, &roster(), 42, 1_000);
    match &state {
        RallState::Awaiting { request, members } => {
            assert_eq!(request.prompt, "Confirm removal of **ghost** from **_0_** members?");
            assert!(members.is_empty());
        }
        other => panic!("{:?}", other),
    }
    let done = state.step(confirmation(42, Answer::Yes, 2_000));
    assert_eq!(done.action(), RallAction::ReportDone(Tally { succeeded: 0, failed: 0 }));
}

#[test]
fn hints_say_what_is_expected() {
    assert!(modbot::colour::COLOUR_HINT.contains("six hexadecimal digits"));
    assert!(modbot::duration::SPAN_HINT.contains("eleven digits"));
    assert_eq!(modbot::commands::moderation::user::DEFAULT_TIMEOUT, "1h");
    assert_eq!(modbot::filter::LINK_PATTERN, "https?://\\S+");
}
