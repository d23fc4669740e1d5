//! The message queue's decisions: how deep a queue to ask for, whether to ask
//! again, and why a receive failed.

use crate::text::{chars_of, trim, trim_bounds};
use vstd::prelude::*;

verus! {

/// How deep we would like the queue to be, subject to what the kernel allows.
pub const DESIRED_MAXMSG: i64 = 50;

/// The kernel's documented default ceiling on queue depth, for when its setting cannot be read.
pub const DEFAULT_MAXMSG: i64 = 10;

/// How an attempt to open the queue went.
#[derive(Clone, Copy, Debug, PartialEq, Eq)]
pub enum OpenAttempt {
    /// `mq_open(3)` gave a descriptor.
    Opened,
    /// `mq_open(3)` failed with `EINVAL`, which it does when the depth asked for is above what
    /// the caller may have.
    RefusedAsInvalid,
    /// `mq_open(3)` failed for any other reason.
    Failed,
}

/// What to do after the first attempt to open the queue, made at `DESIRED_MAXMSG`.
#[derive(Clone, Copy, Debug, PartialEq, Eq)]
pub enum OpenStep {
    /// Use the descriptor that was opened.
    Done,
    /// Open once more, asking for the depth the kernel is configured to allow.
    RetryWithKernelLimit,
    /// Report the failure.
    GiveUp,
}

/// Decides what follows the first attempt to open the queue: only a refusal of the depth asked
/// for is worth a second attempt, at the kernel's own limit.
pub fn after_first_open(attempt: OpenAttempt) -> (r: OpenStep)
    ensures
        attempt == OpenAttempt::Opened ==> r == OpenStep::Done,
        attempt == OpenAttempt::RefusedAsInvalid ==> r == OpenStep::RetryWithKernelLimit,
        attempt == OpenAttempt::Failed ==> r == OpenStep::GiveUp,
{
    match attempt {
        OpenAttempt::Opened => OpenStep::Done,
        OpenAttempt::RefusedAsInvalid => OpenStep::RetryWithKernelLimit,
        OpenAttempt::Failed => OpenStep::GiveUp,
    }
}

/// Why receiving a message failed.
#[derive(Debug)]
pub enum MQError {
    /// `mq_receive(3)` failed.
    IO(std::io::Error),
    /// The message received was not the size of one record.
    WrongSize,
}

/// Whether `c` is an ASCII decimal digit.
pub open spec fn is_digit(c: char) -> bool {
    '0' <= c <= '9'
}

/// Whether every character of `s` is a decimal digit.
pub open spec fn all_digits(s: Seq<char>) -> bool {
    forall|i: int| 0 <= i < s.len() ==> is_digit(#[trigger] s[i])
}

/// The value of the decimal digits `s`, most significant first.
pub open spec fn digits_value(s: Seq<char>) -> nat
    decreases s.len(),
{
    if s.len() == 0 {
        0
    } else {
        digits_value(s.subrange(0, s.len() - 1)) * 10 + (s[s.len() - 1] as nat - 48) as nat
    }
}

/// The `i64` that `s` spells as `i64::from_str` reads it: an optional `+` or `-`, then one or
/// more decimal digits, with a value in range; `None` for anything else.
pub open spec fn parse_i64(s: Seq<char>) -> Option<i64> {
    let signed = s.len() > 0 && (s[0] == '-' || s[0] == '+');
    let body = if signed {
        s.subrange(1, s.len() as int)
    } else {
        s
    };
    let v: int = if s.len() > 0 && s[0] == '-' {
        -digits_value(body)
    } else {
        digits_value(body) as int
    };
    if body.len() == 0 || !all_digits(body) {
        None
    } else if i64::MIN <= v <= i64::MAX {
        Some(v as i64)
    } else {
        None
    }
}

/// The queue depth limit that the text of `/proc/sys/fs/mqueue/msg_max` gives, trimmed; the
/// default when the file could not be read (`None`) or does not hold a number.
pub open spec fn maxmsg_limit_spec(contents: Option<Seq<char>>) -> i64 {
    match contents {
        Some(text) => match parse_i64(trim(text)) {
            Some(v) => v,
            None => DEFAULT_MAXMSG,
        },
        None => DEFAULT_MAXMSG,
    }
}

proof fn lemma_digits_value_grows(s: Seq<char>, k: int)
    requires
        0 <= k <= s.len(),
    ensures
        digits_value(s.subrange(0, k)) <= digits_value(s),
    decreases s.len() - k,
{
    if k < s.len() {
        lemma_digits_value_grows(s, k + 1);
        assert(s.subrange(0, k + 1).subrange(0, k) =~= s.subrange(0, k));
    } else {
        assert(s.subrange(0, k) =~= s);
    }
}

/// The value of `cs[from..to]` read as `i64::from_str` reads it.
fn parse_i64_at(cs: &Vec<char>, from: usize, to: usize) -> (r: Option<i64>)
    requires
        from <= to <= cs@.len(),
    ensures
        r == parse_i64(cs@.subrange(from as int, to as int)),
{
    let ghost s = cs@.subrange(from as int, to as int);
    let mut start = from;
    let mut negative = false;
    if from < to && (cs[from] == '-' || cs[from] == '+') {
        negative = cs[from] == '-';
        start = from + 1;
    }
    let ghost body = cs@.subrange(start as int, to as int);
    proof {
        if from < to {
            assert(s[0] == cs@[from as int]);
        }
        if from < to && (cs@[from as int] == '-' || cs@[from as int] == '+') {
            assert(body =~= s.subrange(1, s.len() as int));
        } else {
            assert(body =~= s);
        }
    }
    if start == to {
        return None;
    }
    let mut magnitude: u64 = 0;
    let mut i = start;
    while i < to
        invariant
            start <= i <= to <= cs@.len(),
            from <= start,
            s == cs@.subrange(from as int, to as int),
            body == cs@.subrange(start as int, to as int),
            body == (if s.len() > 0 && (s[0] == '-' || s[0] == '+') {
                s.subrange(1, s.len() as int)
            } else {
                s
            }),
            negative == (s.len() > 0 && s[0] == '-'),
            forall|m: int| start <= m < i ==> is_digit(#[trigger] cs@[m]),
            magnitude == digits_value(cs@.subrange(start as int, i as int)),
        decreases to - i,
    {
        let c = cs[i];
        if !('0' <= c && c <= '9') {
            proof {
                assert(!is_digit(body[i - start]));
            }
            return None;
        }
        let d = (c as u32 - 48) as u64;
        proof {
            assert(cs@.subrange(start as int, i + 1).subrange(0, i - start) =~= cs@.subrange(
                start as int,
                i as int,
            ));
        }
        match magnitude.checked_mul(10) {
            Some(times_ten) => match times_ten.checked_add(d) {
                Some(next) => {
                    magnitude = next;
                },
                None => {
                    proof {
                        lemma_digits_value_grows(body, i + 1 - start);
                        assert(body.subrange(0, i + 1 - start) =~= cs@.subrange(start as int, i + 1));
                        lemma_overflow_refused(s, body, negative);
                    }
                    return None;
                },
            },
            None => {
                proof {
                    lemma_digits_value_grows(body, i + 1 - start);
                    assert(body.subrange(0, i + 1 - start) =~= cs@.subrange(start as int, i + 1));
                    lemma_overflow_refused(s, body, negative);
                }
                return None;
            },
        }
        i = i + 1;
    }
    proof {
        assert(cs@.subrange(start as int, to as int) =~= body);
        assert forall|m: int| 0 <= m < body.len() implies is_digit(#[trigger] body[m]) by {
            assert(body[m] == cs@[start + m]);
        }
    }
    if negative {
        if magnitude > 9223372036854775808u64 {
            None
        } else if magnitude == 9223372036854775808u64 {
            Some(i64::MIN)
        } else {
            Some(-(magnitude as i64))
        }
    } else {
        if magnitude > i64::MAX as u64 {
            None
        } else {
            Some(magnitude as i64)
        }
    }
}

/// A run of digits too large for a `u64` is out of range whatever its sign.
proof fn lemma_overflow_refused(s: Seq<char>, body: Seq<char>, negative: bool)
    requires
        digits_value(body) > u64::MAX,
        body == (if s.len() > 0 && (s[0] == '-' || s[0] == '+') {
            s.subrange(1, s.len() as int)
        } else {
            s
        }),
    ensures
        parse_i64(s) is None,
{
}

/// The queue depth limit that the text of `/proc/sys/fs/mqueue/msg_max` gives (`None` when
/// the file could not be read); the documented default when there is no number in it.
pub fn maxmsg_limit_from(contents: Option<&str>) -> (r: i64)
    ensures
        r == maxmsg_limit_spec(
            match contents {
                Some(s) => Some(s@),
                None => None,
            },
        ),
{
    match contents {
        None => DEFAULT_MAXMSG,
        Some(text) => {
            let cs = chars_of(text);
            let (lo, hi) = trim_bounds(&cs, 0, cs.len());
            proof {
                assert(cs@.subrange(0, cs@.len() as int) =~= text@);
            }
            match parse_i64_at(&cs, lo, hi) {
                Some(v) => v,
                None => DEFAULT_MAXMSG,
            }
        },
    }
}

} // verus!
