use modbot::commands::moderation::user::{
    ban, decide_timeout, kick, timeout, unban, untimeout, BanOrder, TimeoutDecision,
    UntimeoutDecision,
};
use modbot::duration::{has_few_digits, millis_of, read_millis, write_age};
use modbot::error::ErrorKind;

#[test]
fn spans_are_read_in_milliseconds() {
    assert_eq!(read_millis("1h"), Ok(3_600_000));
    assert_eq!(read_millis("2h 37min"), Ok(9_420_000));
    assert_eq!(read_millis("32ms"), Ok(32));
    assert_eq!(read_millis("4.2s"), Ok(4_200));
    assert_eq!(read_millis("1500us"), Ok(1));
    assert_eq!(read_millis("0"), Ok(0));
    assert_eq!(read_millis("1day"), Ok(86_400_000));
    assert_eq!(read_millis("28d"), Ok(2_419_200_000));
}

#[test]
fn unreadable_spans_are_invalid_arguments() {
    for text in ["", " ", "soon", "1", "1 parsec", "-1h", "1h!", "h1", "1.h"] {
        assert_eq!(read_millis(text), Err(ErrorKind::InvalidArgument), "{:?}", text);
    }
}

#[test]
fn spans_with_many_digits_are_not_read() {
    assert!(has_few_digits("12345678901s"));
    assert!(has_few_digits(""));
    assert!(has_few_digits("no digits at all, however long the text may be"));
    assert!(!has_few_digits("123456789012s"));
    assert!(!has_few_digits("1s 2s 3s 4s 5s 6s 7s 8s 9s 10s 11s"));
    assert_eq!(read_millis("12345678901s"), Ok(12_345_678_901_000));
    assert_eq!(read_millis("123456789012s"), Err(ErrorKind::InvalidArgument));
    assert_eq!(read_millis("000000000001s"), Err(ErrorKind::InvalidArgument));
    assert_eq!(
        read_millis("18446744073709551615s 1000ms"),
        Err(ErrorKind::InvalidArgument)
    );
}

#[test]
fn milliseconds_are_rounded_down() {
    assert_eq!(millis_of(0, 0), 0);
    assert_eq!(millis_of(1, 999_999), 1_000);
    assert_eq!(millis_of(1, 1_000_000), 1_001);
    assert_eq!(millis_of(u64::MAX, 999_999_999), u64::MAX as u128 * 1000 + 999);
}

#[test]
fn ages_are_written_in_words() {
    assert_eq!(write_age(1_000, 1_000), "0s");
    assert_eq!(write_age(1_000, 10_420), "2h 37m");
    assert_eq!(write_age(-30, 29), "59s");
    assert_eq!(write_age(0, 86_400 * 3 + 5), "3days 5s");
    assert_eq!(write_age(0, 31_557_600 + 2_630_016), "1year 1month");
    assert_eq!(write_age(5, 4), "0s");
    assert_eq!(write_age(i64::MAX, i64::MIN), "0s");
    assert_eq!(
        write_age(i64::MIN, i64::MAX),
        "584542046090years 7months 15days 17h 5m 3s"
    );
}

#[test]
fn a_timeout_lasts_an_hour_unless_told_otherwise() {
    assert_eq!(
        timeout(None, 1_000, None),
        Ok(TimeoutDecision::Apply { until_millis: 3_601_000 })
    );
    assert_eq!(
        timeout(Some("10min"), 1_000, None),
        Ok(TimeoutDecision::Apply { until_millis: 601_000 })
    );
    assert_eq!(
        timeout(Some("10min"), 1_000, Some(999)),
        Ok(TimeoutDecision::Apply { until_millis: 601_000 })
    );
    assert_eq!(
        timeout(Some("10min"), 1_000, Some(1_000)),
        Ok(TimeoutDecision::Apply { until_millis: 601_000 })
    );
}

#[test]
fn a_member_under_timeout_is_left_alone() {
    assert_eq!(timeout(Some("10min"), 1_000, Some(1_001)), Ok(TimeoutDecision::AlreadyTimedOut));
    assert_eq!(timeout(None, 1_000, Some(i64::MAX)), Ok(TimeoutDecision::AlreadyTimedOut));
    assert_eq!(timeout(None, -5, None), Ok(TimeoutDecision::AlreadyTimedOut));
}

#[test]
fn a_timeout_that_cannot_be_read_fails() {
    assert_eq!(timeout(Some("later"), 1_000, None), Err(ErrorKind::InvalidArgument));
    assert_eq!(timeout(Some("later"), 1_000, Some(5_000)), Err(ErrorKind::InvalidArgument));
    assert_eq!(timeout(Some(""), 1_000, None), Err(ErrorKind::InvalidArgument));
    assert_eq!(timeout(Some("123456789012s"), 1_000, None), Err(ErrorKind::InvalidArgument));
}

#[test]
fn a_timeout_beyond_the_last_instant_fails() {
    assert_eq!(decide_timeout(Ok(1), i64::MAX, None), Err(ErrorKind::InvalidArgument));
    assert_eq!(
        decide_timeout(Ok(0), i64::MAX, None),
        Ok(TimeoutDecision::Apply { until_millis: i64::MAX })
    );
    assert_eq!(
        decide_timeout(Ok(i64::MAX as u128 + 5), -5, Some(-6)),
        Ok(TimeoutDecision::Apply { until_millis: i64::MAX })
    );
    assert_eq!(decide_timeout(Ok(i64::MAX as u128 + 6), -5, None), Err(ErrorKind::InvalidArgument));
    assert_eq!(decide_timeout(Ok(u128::MAX), i64::MIN, None), Err(ErrorKind::InvalidArgument));
    assert_eq!(
        decide_timeout(Ok(u64::MAX as u128), i64::MIN, Some(i64::MIN)),
        Ok(TimeoutDecision::Apply { until_millis: i64::MAX })
    );
    assert_eq!(decide_timeout(Err(ErrorKind::Forbidden), 0, None), Err(ErrorKind::InvalidArgument));
}

#[test]
fn untimeout_lifts_a_running_timeout() {
    assert_eq!(untimeout(1_000, Some(1_000)), UntimeoutDecision::Lift);
    assert_eq!(untimeout(1_000, Some(5_000)), UntimeoutDecision::Lift);
    assert_eq!(untimeout(1_000, Some(999)), UntimeoutDecision::NotTimedOut);
    assert_eq!(untimeout(1_000, None), UntimeoutDecision::NotTimedOut);
    assert_eq!(untimeout(0, None), UntimeoutDecision::Lift);
}

#[test]
fn the_reason_defaults_to_who_asked() {
    assert_eq!(
        ban(None, "alice"),
        BanOrder { delete_message_days: 0, reason: "Requested by alice".to_string() }
    );
    assert_eq!(
        ban(Some("spam".to_string()), "alice"),
        BanOrder { delete_message_days: 0, reason: "spam".to_string() }
    );
    assert_eq!(unban(None, "bob"), "Requested by bob");
    assert_eq!(unban(Some(String::new()), "bob"), "");
    assert_eq!(kick(None, ""), "Requested by ");
    assert_eq!(kick(Some("rude".to_string()), "carol"), "rude");
}
