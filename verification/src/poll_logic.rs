//! The decisions of the polling loop: which readiness reports reach a handler, what becomes of
//! a source after its handler ran, and when the loop ends. The loop itself, epoll and the
//! handlers live with the caller.

use vstd::prelude::*;

verus! {

/// `EPOLLIN`: the source is readable.
pub const READABLE: u32 = 0x1;

/// `EPOLLERR`: an error condition on the source.
pub const ERROR_FLAG: u32 = 0x8;

/// `EPOLLHUP`: the other end hung up.
pub const HANGUP_FLAG: u32 = 0x10;

/// The flags that mean a source is dead: epoll reports them whether asked or not, and they
/// never clear.
pub const HANGUP: u32 = 0x18;

/// What a handler asks of the loop.
#[derive(Clone, Copy, Debug, PartialEq, Eq)]
pub enum PollAction {
    /// Leave the source registered and keep polling.
    Continue,
    /// Tear down the whole polling loop.
    Stop,
    /// Deregister just this source; the remaining sources keep polling.
    Remove,
}

/// What the loop does with one readiness report.
#[derive(Clone, Copy, Debug, PartialEq, Eq)]
pub enum Dispatch {
    /// Nothing of interest is set; the source is not touched.
    Skip,
    /// The source's handler runs; `hangup` says whether the source is dead.
    Run { hangup: bool },
}

/// Whether `flags` hold readiness or a hangup, which are what the loop acts on.
pub open spec fn is_actionable(flags: u32) -> bool {
    flags & (READABLE | HANGUP) != 0
}

/// Whether `flags` say that the source hung up or failed.
pub open spec fn is_hangup(flags: u32) -> bool {
    flags & HANGUP != 0
}

/// What the loop does once `epoll_wait(2)` has returned.
#[derive(Clone, Copy, Debug, PartialEq, Eq)]
pub enum WaitStep {
    /// This many reports are ready to be handled.
    Ready(usize),
    /// A signal interrupted the wait before anything was ready: wait again.
    Retry,
    /// The wait failed; the reason is in `errno`.
    Fail,
}

/// Reads what `epoll_wait(2)` returned: a count of ready reports when it is not negative;
/// otherwise another wait when `errno` says the call was interrupted, and a failure when not.
/// `interrupted` is only consulted when the call failed.
pub fn wait_step(ret: i32, interrupted: bool) -> (r: WaitStep)
    ensures
        ret >= 0 ==> r == WaitStep::Ready(ret as usize),
        ret < 0 && interrupted ==> r == WaitStep::Retry,
        ret < 0 && !interrupted ==> r == WaitStep::Fail,
{
    if ret >= 0 {
        WaitStep::Ready(ret as usize)
    } else if interrupted {
        WaitStep::Retry
    } else {
        WaitStep::Fail
    }
}

/// Sorts one readiness report: a handler runs when the source is readable or dead, and learns
/// which of the two.
pub fn dispatch_for(flags: u32) -> (r: Dispatch)
    ensures
        !is_actionable(flags) <==> r == Dispatch::Skip,
        is_actionable(flags) ==> r == (Dispatch::Run { hangup: is_hangup(flags) }),
{
    if flags & (READABLE | HANGUP) == 0 {
        Dispatch::Skip
    } else {
        Dispatch::Run { hangup: flags & HANGUP != 0 }
    }
}

/// What becomes of one source once its handler has run.
#[derive(Debug)]
pub enum SourceOutcome<E> {
    /// End the loop at once with `PollAction::Stop`.
    StopLoop,
    /// Take the source out of the set and go on with the next report.
    Deregister,
    /// Leave the source registered and go on with the next report.
    Keep,
    /// End the loop at once with the handler's error.
    Fail(E),
}

/// The outcome for a handler that returned `result`, on a source that has hung up when
/// `hangup` holds.
pub open spec fn outcome_spec<E>(result: Result<PollAction, E>, hangup: bool) -> SourceOutcome<E> {
    match result {
        Ok(PollAction::Stop) => SourceOutcome::StopLoop,
        Ok(PollAction::Remove) => SourceOutcome::Deregister,
        Ok(PollAction::Continue) => if hangup {
            SourceOutcome::Deregister
        } else {
            SourceOutcome::Keep
        },
        Err(e) => if hangup {
            SourceOutcome::Deregister
        } else {
            SourceOutcome::Fail(e)
        },
    }
}

/// Decides what becomes of a source once its handler returned `result`. A `Stop` ends the
/// loop and a `Remove` drops the source. A dead source is dropped whatever its handler says,
/// and a handler error on it is swallowed, since the source is going away either way; on a
/// live source the error ends the loop.
pub fn handler_outcome<E>(result: Result<PollAction, E>, hangup: bool) -> (r: SourceOutcome<E>)
    ensures
        r == outcome_spec(result, hangup),
{
    match result {
        Ok(PollAction::Stop) => SourceOutcome::StopLoop,
        Ok(PollAction::Remove) => SourceOutcome::Deregister,
        Ok(PollAction::Continue) => {
            if hangup {
                SourceOutcome::Deregister
            } else {
                SourceOutcome::Keep
            }
        },
        Err(e) => {
            if hangup {
                SourceOutcome::Deregister
            } else {
                SourceOutcome::Fail(e)
            }
        },
    }
}

/// What one round of polling reports once every ready source was handled without stopping
/// the loop: `Stop` when no source is left, since waiting on an empty set never ends, and
/// `Continue` otherwise.
pub fn round_result(sources_left: usize) -> (r: PollAction)
    ensures
        sources_left == 0 ==> r == PollAction::Stop,
        sources_left > 0 ==> r == PollAction::Continue,
{
    if sources_left == 0 {
        PollAction::Stop
    } else {
        PollAction::Continue
    }
}

/// Whether the run loop goes on after a round that reported `action`. A round never reports
/// `Remove`, which is a request about one source only.
pub fn keeps_running(action: PollAction) -> (r: bool)
    requires
        action != PollAction::Remove,
    ensures
        r <==> action == PollAction::Continue,
{
    match action {
        PollAction::Continue => true,
        _ => false,
    }
}

/// The 64-bit token epoll carries for the source registered under `key`.
pub fn token_for_key(key: usize) -> (r: u64)
    requires
        key <= u64::MAX,
    ensures
        r == key,
{
    key as u64
}

/// The key of the source whose token epoll reported.
pub fn key_for_token(token: u64) -> (r: usize)
    requires
        token <= usize::MAX,
    ensures
        r == token,
{
    token as usize
}

/// The flags are epoll's own bits: `EPOLLIN` is 0x1, `EPOLLERR` 0x8 and `EPOLLHUP` 0x10, and a
/// dead source is one with either of the last two set.
pub proof fn lemma_flags_are_epolls()
    ensures
        READABLE == 0x1,
        ERROR_FLAG == 0x8,
        HANGUP_FLAG == 0x10,
        HANGUP == ERROR_FLAG | HANGUP_FLAG,
        forall|flags: u32|
            #[trigger] is_hangup(flags) <==> (flags & ERROR_FLAG != 0 || flags & HANGUP_FLAG != 0),
        forall|flags: u32|
            #[trigger] is_actionable(flags) <==> (flags & READABLE != 0 || is_hangup(flags)),
{
    assert(0x8u32 | 0x10u32 == 0x18u32) by (bit_vector);
    assert forall|flags: u32|
        #[trigger] is_hangup(flags) <==> (flags & 0x8u32 != 0 || flags & 0x10u32 != 0) by {
        assert((flags & 0x18u32 != 0) <==> (flags & 0x8u32 != 0 || flags & 0x10u32 != 0))
            by (bit_vector);
    }
    assert forall|flags: u32|
        #[trigger] is_actionable(flags) <==> (flags & 0x1u32 != 0 || is_hangup(flags)) by {
        assert((flags & (0x1u32 | 0x18u32) != 0) <==> (flags & 0x1u32 != 0 || flags & 0x18u32
            != 0)) by (bit_vector);
    }
}

/// A source that hung up never stays registered: its handler either ends the loop or the
/// source is taken out, even when the handler asks to continue or fails.
pub proof fn lemma_hangup_never_kept<E>(result: Result<PollAction, E>)
    ensures
        outcome_spec(result, true) == SourceOutcome::<E>::StopLoop || outcome_spec(result, true)
            == SourceOutcome::<E>::Deregister,
{
}

/// Whether or not the source hung up, a handler's `Stop` ends the loop and its `Remove` drops
/// only that source and lets the loop go on; the loop ends only on a `Stop` or on an error from
/// a live source, and an error from a source that hung up drops that source.
pub proof fn lemma_handler_requests_hold_for_any_source<E>(
    hangup: bool,
    result: Result<PollAction, E>,
    e: E,
)
    ensures
        outcome_spec(Ok::<PollAction, E>(PollAction::Stop), hangup) == SourceOutcome::<E>::StopLoop,
        outcome_spec(Ok::<PollAction, E>(PollAction::Remove), hangup)
            == SourceOutcome::<E>::Deregister,
        outcome_spec(Ok::<PollAction, E>(PollAction::Continue), hangup) is Keep <==> !hangup,
        outcome_spec(result, hangup) is StopLoop <==> result == Ok::<PollAction, E>(
            PollAction::Stop,
        ),
        outcome_spec(result, hangup) is Fail <==> (result is Err && !hangup),
        outcome_spec(Err::<PollAction, E>(e), true) == SourceOutcome::<E>::Deregister,
{
}

/// A handler error escapes the loop exactly when the source is still alive.
pub proof fn lemma_errors_escape_only_live_sources<E>(e: E, hangup: bool)
    ensures
        outcome_spec(Err::<PollAction, E>(e), hangup) is Fail <==> !hangup,
{
}

/// On a live source the handler decides: `Continue` keeps it, `Remove` drops it, `Stop` ends
/// the loop.
pub proof fn lemma_live_source_follows_handler<E>(action: PollAction)
    ensures
        action == PollAction::Continue ==> outcome_spec(Ok::<PollAction, E>(action), false)
            == SourceOutcome::<E>::Keep,
        action == PollAction::Remove ==> outcome_spec(Ok::<PollAction, E>(action), false)
            == SourceOutcome::<E>::Deregister,
        action == PollAction::Stop ==> outcome_spec(Ok::<PollAction, E>(action), false)
            == SourceOutcome::<E>::StopLoop,
{
}

/// A key survives the trip through epoll's token unchanged.
pub proof fn lemma_token_round_trip(key: usize)
    requires
        key <= u64::MAX,
    ensures
        (key as u64) as usize == key,
{
}

} // verus!
