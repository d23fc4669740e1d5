use threadstat::message::{
    MessageFlag, RawMessage, ThreadstatMessage, UnknownFlag, MESSAGE_FLAG_ADD_PROCESS,
    MESSAGE_FLAG_REMOVE_PROCESS,
};

#[test]
fn add_and_remove_are_understood() {
    let add = ThreadstatMessage::try_from(RawMessage { tid: 12, flags: MESSAGE_FLAG_ADD_PROCESS });
    assert_eq!(add, Ok(ThreadstatMessage { tid: 12, flag: MessageFlag::AddProcess }));
    let rm = ThreadstatMessage::try_from(RawMessage { tid: 13, flags: MESSAGE_FLAG_REMOVE_PROCESS });
    assert_eq!(rm, Ok(ThreadstatMessage { tid: 13, flag: MessageFlag::RemoveProcess }));
}

#[test]
fn unknown_flag_is_reported() {
    let r = ThreadstatMessage::try_from(RawMessage { tid: 1, flags: 77 });
    assert_eq!(r, Err(UnknownFlag(77)));
    assert_eq!(UnknownFlag(77).describe(), "unknown message flag: 77");
    assert_eq!(UnknownFlag(-3).describe(), "unknown message flag: -3");
}
