//! The messages that announce threads to sample over the message queue.

use crate::decimal::{push_signed_decimal, signed_decimal};
use vstd::prelude::*;

verus! {

/// The flag value of a message that announces a new thread.
pub const MESSAGE_FLAG_ADD_PROCESS: i32 = 0;

/// The flag value of a message that announces a thread that went away.
pub const MESSAGE_FLAG_REMOVE_PROCESS: i32 = 1;

/// A message as it travels over the queue: a thread id and a flag.
#[derive(Clone, Copy, Debug, PartialEq, Eq)]
pub struct RawMessage {
    pub tid: i32,
    pub flags: i32,
}

/// What a message asks for.
#[derive(Clone, Copy, Debug, PartialEq, Eq)]
pub enum MessageFlag {
    AddProcess,
    RemoveProcess,
}

/// A message with a flag that was understood.
#[derive(Clone, Copy, Debug, PartialEq, Eq)]
pub struct ThreadstatMessage {
    pub tid: i32,
    pub flag: MessageFlag,
}

/// A message carried a flag that is neither of the known ones.
#[derive(Debug, PartialEq, Eq)]
pub struct UnknownFlag(pub i32);

/// The message that `msg` carries, or the unknown flag.
pub open spec fn decode_message(msg: RawMessage) -> Result<ThreadstatMessage, UnknownFlag> {
    if msg.flags == MESSAGE_FLAG_ADD_PROCESS {
        Ok(ThreadstatMessage { tid: msg.tid, flag: MessageFlag::AddProcess })
    } else if msg.flags == MESSAGE_FLAG_REMOVE_PROCESS {
        Ok(ThreadstatMessage { tid: msg.tid, flag: MessageFlag::RemoveProcess })
    } else {
        Err(UnknownFlag(msg.flags))
    }
}

impl TryFrom<RawMessage> for ThreadstatMessage {
    type Error = UnknownFlag;

    fn try_from(msg: RawMessage) -> (r: Result<Self, Self::Error>) {
        if msg.flags == MESSAGE_FLAG_ADD_PROCESS {
            Ok(ThreadstatMessage { tid: msg.tid, flag: MessageFlag::AddProcess })
        } else if msg.flags == MESSAGE_FLAG_REMOVE_PROCESS {
            Ok(ThreadstatMessage { tid: msg.tid, flag: MessageFlag::RemoveProcess })
        } else {
            Err(UnknownFlag(msg.flags))
        }
    }
}

impl vstd::std_specs::convert::TryFromSpecImpl<RawMessage> for ThreadstatMessage {
    open spec fn obeys_try_from_spec() -> bool {
        true
    }

    open spec fn try_from_spec(msg: RawMessage) -> Result<Self, UnknownFlag> {
        decode_message(msg)
    }
}

/// The text of an unknown flag error: `unknown message flag: ` and the flag.
pub open spec fn unknown_flag_text(flag: i32) -> Seq<char> {
    "unknown message flag: "@ + signed_decimal(flag as int)
}

impl UnknownFlag {
    /// What went wrong, in words.
    pub fn describe(&self) -> (r: String)
        ensures
            r@ == unknown_flag_text(self.0),
    {
        let mut out = String::from_str("unknown message flag: ");
        push_signed_decimal(&mut out, self.0 as i64);
        out
    }
}

} // verus!
