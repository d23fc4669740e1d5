//! Arming a timer file descriptor: which settings a period or a delay turns into, which are
//! refused, and how a read of the expiration count turned out.

use vstd::prelude::*;

verus! {

/// Which clock a timer counts on.
#[derive(Clone, Copy, Debug, PartialEq, Eq)]
pub enum Clock {
    /// Counts up from an unspecified point and is unaffected by clock adjustments. This is
    /// what you want for intervals.
    Monotonic,
    /// Wall clock, so a settimeofday or an NTP step moves the expiry.
    Realtime,
}

/// The clock id the kernel knows a clock by.
pub open spec fn clock_id_of(clock: Clock) -> i32 {
    match clock {
        Clock::Monotonic => 1,
        Clock::Realtime => 0,
    }
}

impl Clock {
    /// The clock id the kernel knows this clock by.
    pub fn clock_id(&self) -> (r: i32)
        ensures
            r == clock_id_of(*self),
    {
        match self {
            Clock::Monotonic => 1,
            Clock::Realtime => 0,
        }
    }
}

/// Seconds and nanoseconds, as the kernel's `timespec` holds them.
#[derive(Clone, Copy, Debug, PartialEq, Eq)]
pub struct Timespec {
    pub tv_sec: i64,
    pub tv_nsec: i64,
}

/// A timer setting: the first expiry and the period after it; zeroes throughout disarm.
#[derive(Clone, Copy, Debug, PartialEq, Eq)]
pub struct TimerSetting {
    pub interval: Timespec,
    pub value: Timespec,
}

/// The zero time.
pub open spec fn zero_timespec() -> Timespec {
    Timespec { tv_sec: 0, tv_nsec: 0 }
}

/// Why a timer was not armed.
#[derive(Clone, Copy, Debug, PartialEq, Eq)]
pub enum ArmError {
    /// A zero period would disarm the timer rather than arm it.
    ZeroPeriod,
    /// A zero delay would disarm the timer rather than arm it.
    ZeroDelay,
    /// The duration's seconds do not fit a `timespec`.
    TooLarge,
}

impl ArmError {
    /// What went wrong, in words.
    pub fn message(&self) -> (r: &'static str)
        ensures
            *self == ArmError::ZeroPeriod ==> r@
                == "a zero period would disarm the timer; call disarm() instead"@,
            *self == ArmError::ZeroDelay ==> r@
                == "a zero delay would disarm the timer; call disarm() instead"@,
            *self == ArmError::TooLarge ==> r@ == "duration exceeds timespec"@,
    {
        match self {
            ArmError::ZeroPeriod => "a zero period would disarm the timer; call disarm() instead",
            ArmError::ZeroDelay => "a zero delay would disarm the timer; call disarm() instead",
            ArmError::TooLarge => "duration exceeds timespec",
        }
    }
}

/// A duration of `secs` seconds and `nanos` nanoseconds as a `timespec`; refused when the
/// seconds do not fit.
pub fn to_timespec(secs: u64, nanos: u32) -> (r: Result<Timespec, ArmError>)
    requires
        nanos < 1_000_000_000,
    ensures
        secs <= i64::MAX ==> r == Ok::<Timespec, ArmError>(
            Timespec { tv_sec: secs as i64, tv_nsec: nanos as i64 },
        ),
        secs > i64::MAX ==> r == Err::<Timespec, ArmError>(ArmError::TooLarge),
{
    if secs > i64::MAX as u64 {
        return Err(ArmError::TooLarge);
    }
    Ok(Timespec { tv_sec: secs as i64, tv_nsec: nanos as i64 })
}

/// The setting that fires after `secs` seconds and `nanos` nanoseconds and every such period
/// thereafter. A zero period is refused: the kernel would read it as "disarm".
pub fn periodic_setting(secs: u64, nanos: u32) -> (r: Result<TimerSetting, ArmError>)
    requires
        nanos < 1_000_000_000,
    ensures
        secs == 0 && nanos == 0 ==> r == Err::<TimerSetting, ArmError>(ArmError::ZeroPeriod),
        !(secs == 0 && nanos == 0) && secs > i64::MAX ==> r == Err::<TimerSetting, ArmError>(
            ArmError::TooLarge,
        ),
        !(secs == 0 && nanos == 0) && secs <= i64::MAX ==> r == Ok::<TimerSetting, ArmError>(
            TimerSetting {
                interval: Timespec { tv_sec: secs as i64, tv_nsec: nanos as i64 },
                value: Timespec { tv_sec: secs as i64, tv_nsec: nanos as i64 },
            },
        ),
        r matches Ok(s) ==> s.value != zero_timespec(),
{
    if secs == 0 && nanos == 0 {
        return Err(ArmError::ZeroPeriod);
    }
    match to_timespec(secs, nanos) {
        Ok(ts) => Ok(TimerSetting { interval: ts, value: ts }),
        Err(e) => Err(e),
    }
}

/// The setting that fires once after `secs` seconds and `nanos` nanoseconds and then stays
/// quiet. A zero delay is refused: the kernel would read it as "disarm".
pub fn oneshot_setting(secs: u64, nanos: u32) -> (r: Result<TimerSetting, ArmError>)
    requires
        nanos < 1_000_000_000,
    ensures
        secs == 0 && nanos == 0 ==> r == Err::<TimerSetting, ArmError>(ArmError::ZeroDelay),
        !(secs == 0 && nanos == 0) && secs > i64::MAX ==> r == Err::<TimerSetting, ArmError>(
            ArmError::TooLarge,
        ),
        !(secs == 0 && nanos == 0) && secs <= i64::MAX ==> r == Ok::<TimerSetting, ArmError>(
            TimerSetting {
                interval: zero_timespec(),
                value: Timespec { tv_sec: secs as i64, tv_nsec: nanos as i64 },
            },
        ),
        r matches Ok(s) ==> s.value != zero_timespec(),
{
    if secs == 0 && nanos == 0 {
        return Err(ArmError::ZeroDelay);
    }
    match to_timespec(secs, nanos) {
        Ok(ts) => Ok(TimerSetting { interval: Timespec { tv_sec: 0, tv_nsec: 0 }, value: ts }),
        Err(e) => Err(e),
    }
}

/// The setting that stops the timer.
pub fn disarmed_setting() -> (r: TimerSetting)
    ensures
        r == (TimerSetting { interval: zero_timespec(), value: zero_timespec() }),
{
    TimerSetting { interval: Timespec { tv_sec: 0, tv_nsec: 0 }, value: Timespec { tv_sec: 0, tv_nsec: 0 } }
}

} // verus!
