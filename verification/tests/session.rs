use threadstat::args::join_events;
use threadstat::pfm::{pfm_result, PfmError};
use threadstat::group_read::{EventInfo, GroupInfo};
use threadstat::session::{flush_step, ReadIds, ThreadGroups};

#[test]
fn opening_twice_keeps_the_first_groups() {
    let mut t: ThreadGroups<&str> = ThreadGroups::new();
    assert!(t.open_tid(5, || vec!["a", "b"]).is_none());
    let mut called = false;
    let back = t.open_tid(5, || {
        called = true;
        vec!["c"]
    });
    assert!(back.is_some());
    drop(back);
    assert!(!called);
    assert_eq!(t.groups_of(5), Some(&vec!["a", "b"]));
}

#[test]
fn closing_hands_back_the_groups() {
    let mut t: ThreadGroups<u8> = ThreadGroups::new();
    t.open_tid(1, || vec![9]);
    t.open_tid(2, || vec![]);
    assert!(t.is_open(1));
    assert_eq!(t.close_tid(1), Some(vec![9]));
    assert!(!t.is_open(1));
    assert_eq!(t.close_tid(1), None);
    assert_eq!(t.tids(), vec![2]);
}

#[test]
fn tids_lists_each_once() {
    let mut t: ThreadGroups<u8> = ThreadGroups::new();
    for tid in [3, 1, 2, 3] {
        t.open_tid(tid, Vec::new);
    }
    let mut tids = t.tids();
    tids.sort();
    assert_eq!(tids, vec![1, 2, 3]);
}

#[test]
fn read_ids_are_consecutive() {
    let mut ids = ReadIds::new();
    assert_eq!(ids.take(), 0);
    assert_eq!(ids.take(), 1);
    assert_eq!(ids.peek(), 2);
}

#[test]
fn events_join_like_std() {
    let words = vec!["cycles".to_string(), "[a,b]".to_string(), "".to_string(), "x".to_string()];
    assert_eq!(join_events(&words), words.join(","));
    assert_eq!(join_events(&[]), "");
    assert_eq!(join_events(&["one".to_string()]), "one");
}

#[test]
fn pfm_codes() {
    assert_eq!(pfm_result(0), Ok(()));
    assert_eq!(pfm_result(-4), Err(PfmError(-4)));
}

#[test]
fn each_group_read_takes_the_next_id() {
    let mut ids = ReadIds::new();
    let info = GroupInfo { time_enabled: 20, time_running: 10 };
    let events = vec![EventInfo { id: 3, count: 99 }];
    let first = flush_step(&mut ids, 7, Some((info, events)));
    assert_eq!(first, Some(("0,7,10,20\n".to_string(), vec!["0,99,3\n".to_string()])));
    assert_eq!(flush_step(&mut ids, 8, None), None);
    let third = flush_step(&mut ids, 9, Some((info, Vec::new())));
    assert_eq!(third, Some(("2,9,10,20\n".to_string(), Vec::new())));
    assert_eq!(ids.peek(), 3);
}
