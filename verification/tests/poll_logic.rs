use threadstat::poll_logic::{
    dispatch_for, handler_outcome, keeps_running, key_for_token, round_result, token_for_key,
    wait_step, Dispatch, PollAction, SourceOutcome, WaitStep, ERROR_FLAG, HANGUP_FLAG, READABLE,
};

#[test]
fn flags_are_sorted() {
    assert_eq!(dispatch_for(0), Dispatch::Skip);
    assert_eq!(dispatch_for(0x4), Dispatch::Skip);
    assert_eq!(dispatch_for(READABLE), Dispatch::Run { hangup: false });
    assert_eq!(dispatch_for(HANGUP_FLAG), Dispatch::Run { hangup: true });
    assert_eq!(dispatch_for(READABLE | ERROR_FLAG), Dispatch::Run { hangup: true });
}

#[test]
fn flag_values_match_epoll() {
    assert_eq!(READABLE, libc::EPOLLIN as u32);
    assert_eq!(ERROR_FLAG, libc::EPOLLERR as u32);
    assert_eq!(HANGUP_FLAG, libc::EPOLLHUP as u32);
}

#[test]
fn hung_up_source_is_dropped_despite_continue() {
    let r = handler_outcome::<()>(Ok(PollAction::Continue), true);
    assert!(matches!(r, SourceOutcome::Deregister));
}

#[test]
fn handler_error_on_hangup_is_swallowed() {
    let r = handler_outcome(Err("handler blew up"), true);
    assert!(matches!(r, SourceOutcome::Deregister));
}

#[test]
fn handler_error_on_live_source_escapes() {
    let r = handler_outcome(Err("handler blew up"), false);
    assert!(matches!(r, SourceOutcome::Fail("handler blew up")));
}

#[test]
fn live_source_follows_its_handler() {
    assert!(matches!(handler_outcome::<()>(Ok(PollAction::Continue), false), SourceOutcome::Keep));
    assert!(matches!(handler_outcome::<()>(Ok(PollAction::Remove), false), SourceOutcome::Deregister));
    assert!(matches!(handler_outcome::<()>(Ok(PollAction::Stop), false), SourceOutcome::StopLoop));
    assert!(matches!(handler_outcome::<()>(Ok(PollAction::Stop), true), SourceOutcome::StopLoop));
}

#[test]
fn empty_set_ends_the_loop() {
    assert_eq!(round_result(0), PollAction::Stop);
    assert_eq!(round_result(2), PollAction::Continue);
    assert!(keeps_running(PollAction::Continue));
    assert!(!keeps_running(PollAction::Stop));
}

#[test]
fn keys_survive_the_token() {
    assert_eq!(key_for_token(token_for_key(41)), 41);
    assert_eq!(token_for_key(7), 7u64);
}

#[test]
fn wait_results_are_read() {
    assert_eq!(wait_step(3, false), WaitStep::Ready(3));
    assert_eq!(wait_step(0, true), WaitStep::Ready(0));
    assert_eq!(wait_step(-1, true), WaitStep::Retry);
    assert_eq!(wait_step(-1, false), WaitStep::Fail);
}
