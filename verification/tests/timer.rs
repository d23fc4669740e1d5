use threadstat::read_outcome::{receive_outcome, timer_read_outcome, ReadOutcome};
use threadstat::timer::{
    disarmed_setting, oneshot_setting, periodic_setting, to_timespec, ArmError, Clock, Timespec,
    TimerSetting,
};

#[test]
fn zero_duration_is_rejected_rather_than_silently_disarming() {
    assert_eq!(periodic_setting(0, 0), Err(ArmError::ZeroPeriod));
    assert_eq!(oneshot_setting(0, 0), Err(ArmError::ZeroDelay));
}

#[test]
fn periodic_repeats_its_period() {
    let ts = Timespec { tv_sec: 0, tv_nsec: 5_000_000 };
    assert_eq!(periodic_setting(0, 5_000_000), Ok(TimerSetting { interval: ts, value: ts }));
}

#[test]
fn oneshot_has_no_interval() {
    let s = oneshot_setting(2, 1).unwrap();
    assert_eq!(s.interval, Timespec { tv_sec: 0, tv_nsec: 0 });
    assert_eq!(s.value, Timespec { tv_sec: 2, tv_nsec: 1 });
}

#[test]
fn disarm_is_all_zero() {
    let z = Timespec { tv_sec: 0, tv_nsec: 0 };
    assert_eq!(disarmed_setting(), TimerSetting { interval: z, value: z });
}

#[test]
fn seconds_beyond_time_t_are_too_large() {
    assert_eq!(to_timespec(u64::MAX, 0), Err(ArmError::TooLarge));
    assert_eq!(periodic_setting(1 << 63, 0), Err(ArmError::TooLarge));
    assert_eq!(to_timespec(i64::MAX as u64, 999_999_999).unwrap().tv_sec, i64::MAX);
}

#[test]
fn error_messages() {
    assert_eq!(ArmError::TooLarge.message(), "duration exceeds timespec");
    assert_eq!(
        ArmError::ZeroPeriod.message(),
        "a zero period would disarm the timer; call disarm() instead"
    );
    assert_eq!(
        ArmError::ZeroDelay.message(),
        "a zero delay would disarm the timer; call disarm() instead"
    );
}

#[test]
fn clock_ids_match_libc() {
    assert_eq!(Clock::Monotonic.clock_id(), libc::CLOCK_MONOTONIC);
    assert_eq!(Clock::Realtime.clock_id(), libc::CLOCK_REALTIME);
}

#[test]
fn timer_reads() {
    assert_eq!(timer_read_outcome(-1), ReadOutcome::Failed);
    assert_eq!(timer_read_outcome(4), ReadOutcome::Short);
    assert_eq!(timer_read_outcome(8), ReadOutcome::Complete);
}

#[test]
fn queue_receives() {
    assert_eq!(receive_outcome(-1, 8), ReadOutcome::Failed);
    assert_eq!(receive_outcome(8, 8), ReadOutcome::Complete);
    assert_eq!(receive_outcome(3, 8), ReadOutcome::Short);
    assert_eq!(receive_outcome(-2, 8), ReadOutcome::Short);
    assert_eq!(receive_outcome(-1, usize::MAX), ReadOutcome::Failed);
    assert_eq!(receive_outcome(-2, usize::MAX - 1), ReadOutcome::Complete);
    assert_eq!(receive_outcome(isize::MAX, isize::MAX as usize), ReadOutcome::Complete);
}
