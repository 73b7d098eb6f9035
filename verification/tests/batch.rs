use modbot::batch::{BatchAction, BatchRun, Tally};
use modbot::error::ErrorKind;

#[test]
fn five_removals_of_which_two_fail() {
    let members = vec![101, 102, 103, 104, 105];
    let outcomes =
        [Ok(()), Err(ErrorKind::Forbidden), Ok(()), Err(ErrorKind::Transient), Ok(())];
    let mut run = BatchRun::start(members.clone());
    let mut attempted = Vec::new();
    let mut step = 0;
    let tally = loop {
        match run.action() {
            BatchAction::Perform(member) => {
                attempted.push(member);
                run = run.record(outcomes[step]);
                step += 1;
            }
            BatchAction::Report(tally) => break tally,
        }
    };
    assert_eq!(attempted, members);
    assert_eq!(tally, Tally { succeeded: 3, failed: 2 });
    assert_eq!(run.attempted(), 5);
    assert_eq!(run.failed_items(), vec![102, 104]);
}

#[test]
fn an_empty_batch_reports_at_once() {
    let run = BatchRun::start(Vec::new());
    assert!(run.is_finished());
    assert_eq!(run.action(), BatchAction::Report(Tally { succeeded: 0, failed: 0 }));
    assert_eq!(run.failed_items(), Vec::<u64>::new());
}

#[test]
fn a_finished_batch_takes_no_more_outcomes() {
    let mut run = BatchRun::start(vec![1]);
    run = run.record(Ok(()));
    assert!(run.is_finished());
    run = run.record(Err(ErrorKind::Forbidden));
    run = run.record(Ok(()));
    assert_eq!(run.attempted(), 1);
    assert_eq!(run.tally(), Tally { succeeded: 1, failed: 0 });
}

#[test]
fn the_tally_counts_what_was_tried_so_far() {
    let mut run = BatchRun::start(vec![1, 2, 3]);
    assert_eq!(run.tally(), Tally { succeeded: 0, failed: 0 });
    assert!(!run.is_finished());
    run = run.record(Err(ErrorKind::RateLimited));
    assert_eq!(run.tally(), Tally { succeeded: 0, failed: 1 });
    assert_eq!(run.attempted(), 1);
    assert_eq!(run.action(), BatchAction::Perform(2));
    assert!(!run.is_finished());
}

#[test]
fn errors_say_whether_to_try_again() {
    assert!(ErrorKind::RateLimited.is_retryable());
    assert!(ErrorKind::Transient.is_retryable());
    assert!(!ErrorKind::NotFound.is_retryable());
    assert!(!ErrorKind::Forbidden.is_retryable());
    assert!(!ErrorKind::InvalidArgument.is_retryable());
    assert_eq!(ErrorKind::InvalidArgument.message(), "An argument is malformed");
    assert_eq!(ErrorKind::Forbidden.message(), "The platform denied the request");
    assert_eq!(ErrorKind::NotFound.message(), "The role, member or channel was not found");
    assert_eq!(ErrorKind::RateLimited.message(), "Too many requests, try again later");
    assert_eq!(ErrorKind::Transient.message(), "The network failed, try again later");
}
