use modbot::commands::misc::{dm, ping, FIRST_SENDER, SECOND_SENDER};
use modbot::text::decimal_text;

#[test]
fn ping_reports_latency_and_uptime() {
    assert_eq!(ping(42, 9_420), "Ping - 42 ms\nUptime - 2h 37m");
    assert_eq!(ping(0, 0), "Ping - 0 ms\nUptime - 0s");
    assert_eq!(ping(1_234_567, 61), "Ping - 1234567 ms\nUptime - 1m 1s");
}

#[test]
fn numbers_are_written_in_decimal() {
    assert_eq!(decimal_text(0), "0");
    assert_eq!(decimal_text(9), "9");
    assert_eq!(decimal_text(10), "10");
    assert_eq!(decimal_text(1_234_567_890), "1234567890");
    assert_eq!(decimal_text(u128::MAX), u128::MAX.to_string());
}

#[test]
fn only_two_accounts_may_send_direct_messages() {
    assert!(dm(925033181990756392));
    assert!(dm(1031158144795156511));
    assert!(dm(FIRST_SENDER) && dm(SECOND_SENDER));
    assert!(!dm(0));
    assert!(!dm(925033181990756393));
    assert!(!dm(u64::MAX));
}
