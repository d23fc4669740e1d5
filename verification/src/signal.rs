//! The signals a session can block and wait on.

use vstd::prelude::*;

verus! {

/// A signal, by its conventional name.
#[allow(non_camel_case_types)]
#[derive(Clone, Copy, Debug, PartialEq, Eq)]
pub enum Signal {
    SIGHUP,
    SIGINT,
    SIGQUIT,
    SIGILL,
    SIGABRT,
    SIGFPE,
    SIGKILL,
    SIGSEGV,
    SIGPIPE,
    SIGALRM,
    SIGTERM,
}

/// The number Linux gives a signal.
pub open spec fn signal_number(s: Signal) -> i32 {
    match s {
        Signal::SIGHUP => 1,
        Signal::SIGINT => 2,
        Signal::SIGQUIT => 3,
        Signal::SIGILL => 4,
        Signal::SIGABRT => 6,
        Signal::SIGFPE => 8,
        Signal::SIGKILL => 9,
        Signal::SIGSEGV => 11,
        Signal::SIGPIPE => 13,
        Signal::SIGALRM => 14,
        Signal::SIGTERM => 15,
    }
}

impl Signal {
    /// The number Linux gives this signal.
    pub fn number(&self) -> (r: i32)
        ensures
            r == signal_number(*self),
    {
        match self {
            Signal::SIGHUP => 1,
            Signal::SIGINT => 2,
            Signal::SIGQUIT => 3,
            Signal::SIGILL => 4,
            Signal::SIGABRT => 6,
            Signal::SIGFPE => 8,
            Signal::SIGKILL => 9,
            Signal::SIGSEGV => 11,
            Signal::SIGPIPE => 13,
            Signal::SIGALRM => 14,
            Signal::SIGTERM => 15,
        }
    }

    /// The numbers of `signals`, in order, as they are added to a signal set.
    pub fn numbers(signals: &[Signal]) -> (r: Vec<i32>)
        ensures
            r@.len() == signals@.len(),
            forall|i: int| 0 <= i < signals@.len() ==> #[trigger] r@[i] == signal_number(signals@[i]),
    {
        let mut out: Vec<i32> = Vec::new();
        let mut i: usize = 0;
        while i < signals.len()
            invariant
                i <= signals@.len(),
                out@.len() == i,
                forall|k: int| 0 <= k < i ==> #[trigger] out@[k] == signal_number(signals@[k]),
            decreases signals@.len() - i,
        {
            out.push(signals[i].number());
            i = i + 1;
        }
        out
    }
}

/// Different signals have different numbers.
pub proof fn lemma_signal_numbers_distinct(a: Signal, b: Signal)
    requires
        a != b,
    ensures
        signal_number(a) != signal_number(b),
{
}

} // verus!
