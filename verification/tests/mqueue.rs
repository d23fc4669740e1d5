use threadstat::mqueue_logic::{
    after_first_open, maxmsg_limit_from, OpenAttempt, OpenStep, DEFAULT_MAXMSG, DESIRED_MAXMSG,
};

#[test]
fn desired_depth_and_default() {
    assert_eq!(DESIRED_MAXMSG, 50);
    assert_eq!(DEFAULT_MAXMSG, 10);
}

#[test]
fn limit_is_read_from_the_file_text() {
    assert_eq!(maxmsg_limit_from(Some("10\n")), 10);
    assert_eq!(maxmsg_limit_from(Some("  256 ")), 256);
    assert_eq!(maxmsg_limit_from(Some("+7")), 7);
    assert_eq!(maxmsg_limit_from(Some("-3")), -3);
    assert_eq!(maxmsg_limit_from(Some("0007")), 7);
}

#[test]
fn unreadable_or_garbled_file_gives_the_default() {
    assert_eq!(maxmsg_limit_from(None), 10);
    assert_eq!(maxmsg_limit_from(Some("")), 10);
    assert_eq!(maxmsg_limit_from(Some("ten")), 10);
    assert_eq!(maxmsg_limit_from(Some("1 2")), 10);
    assert_eq!(maxmsg_limit_from(Some("-")), 10);
    assert_eq!(maxmsg_limit_from(Some("99999999999999999999")), 10);
}

#[test]
fn limit_parse_agrees_with_std() {
    for text in [
        "9223372036854775807",
        "9223372036854775808",
        "-9223372036854775808",
        "-9223372036854775809",
        "+-1",
        "12a",
        "\u{a0}42\u{a0}",
        "\t-0\n",
    ] {
        let expect = text.trim().parse::<i64>().ok().unwrap_or(10);
        assert_eq!(maxmsg_limit_from(Some(text)), expect, "{text:?}");
    }
}

#[test]
fn only_a_refused_depth_is_retried() {
    assert_eq!(after_first_open(OpenAttempt::Opened), OpenStep::Done);
    assert_eq!(after_first_open(OpenAttempt::RefusedAsInvalid), OpenStep::RetryWithKernelLimit);
    assert_eq!(after_first_open(OpenAttempt::Failed), OpenStep::GiveUp);
}
