use threadstat::poll_logic::{handler_outcome, PollAction, SourceOutcome};
use threadstat::poll_round::{round_end, round_step, RoundStep};
use threadstat::source_table::SourceTable;

#[test]
fn a_round_takes_out_removed_and_hung_up_sources() {
    let mut t = SourceTable::new();
    let a = t.register(10);
    let b = t.register(11);
    let c = t.register(12);
    let step = round_step(&mut t, a, handler_outcome::<()>(Ok(PollAction::Remove), false));
    assert!(matches!(step, RoundStep::Unwatch(10)));
    let step = round_step(&mut t, b, handler_outcome::<()>(Ok(PollAction::Continue), false));
    assert!(matches!(step, RoundStep::Next));
    let step = round_step(&mut t, c, handler_outcome(Err("gone"), true));
    assert!(matches!(step, RoundStep::Unwatch(12)));
    assert_eq!(t.len(), 1);
    assert_eq!(round_end(&t), PollAction::Continue);
    assert_eq!(t.deregister(b), Some(11));
    assert_eq!(round_end(&t), PollAction::Stop);
}

#[test]
fn a_stop_or_a_live_error_ends_the_round_and_keeps_the_source() {
    let mut t = SourceTable::new();
    let a = t.register(5);
    let step = round_step(&mut t, a, handler_outcome::<()>(Ok(PollAction::Stop), true));
    assert!(matches!(step, RoundStep::End(Ok(PollAction::Stop))));
    let step = round_step(&mut t, a, handler_outcome(Err(7u8), false));
    assert!(matches!(step, RoundStep::End(Err(7))));
    assert_eq!(t.len(), 1);
}

#[test]
fn removing_a_key_already_gone_is_nothing_to_do() {
    let mut t = SourceTable::new();
    let a = t.register(5);
    t.deregister(a);
    let step = round_step(&mut t, a, SourceOutcome::<()>::Deregister);
    assert!(matches!(step, RoundStep::Next));
    assert!(t.is_empty());
}
