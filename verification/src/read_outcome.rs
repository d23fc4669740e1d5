//! How a read of a file descriptor that answers with fixed-size records went.

use vstd::prelude::*;

verus! {

/// How a read of a file descriptor that answers with a fixed-size record went.
#[derive(Clone, Copy, Debug, PartialEq, Eq)]
pub enum ReadOutcome {
    /// The read failed; the reason is in `errno`.
    Failed,
    /// The read returned fewer bytes than a whole record.
    Short,
    /// A whole record was read.
    Complete,
}

/// How reading the 8-byte expiration count of a timer went, given what `read(2)` returned.
pub fn timer_read_outcome(ret: isize) -> (r: ReadOutcome)
    ensures
        ret < 0 ==> r == ReadOutcome::Failed,
        ret == 8 ==> r == ReadOutcome::Complete,
        ret >= 0 && ret != 8 ==> r == ReadOutcome::Short,
{
    if ret < 0 {
        ReadOutcome::Failed
    } else if ret as usize != 8 {
        ReadOutcome::Short
    } else {
        ReadOutcome::Complete
    }
}

/// How receiving a message of `size` bytes from a message queue went, given what
/// `mq_receive(3)` returned: `-1` is a failure; otherwise the return value, read as unsigned,
/// is a whole message when it is `size` and a message of the wrong size when not.
pub fn receive_outcome(ret: isize, size: usize) -> (r: ReadOutcome)
    ensures
        ret == -1 ==> r == ReadOutcome::Failed,
        ret != -1 && ret as usize == size ==> r == ReadOutcome::Complete,
        ret != -1 && ret as usize != size ==> r == ReadOutcome::Short,
        ret >= 0 && ret == size ==> r == ReadOutcome::Complete,
        ret >= 0 && ret != size ==> r == ReadOutcome::Short,
{
    if ret == -1 {
        ReadOutcome::Failed
    } else if ret as usize == size {
        ReadOutcome::Complete
    } else {
        ReadOutcome::Short
    }
}

} // verus!
