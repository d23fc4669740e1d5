use threadstat::group_read::{
    group_fd_for, group_open_attrs, leader_after, necessary_buffer_size, parse_group_read, Error, EventInfo, GroupInfo,
    PerfGroupReadEntry, PerfGroupReadHeader, PerfGroupReader,
};
use threadstat::perf_config::{HardwareEvent, PerfConfig};

#[test]
fn buffer_size_formula() {
    assert_eq!(necessary_buffer_size(0), 24);
    assert_eq!(necessary_buffer_size(3), 72);
}

fn fill(buf: &mut [u8], words: &[u64]) {
    let bytes: Vec<u8> = words.iter().flat_map(|w| w.to_ne_bytes()).collect();
    buf.copy_from_slice(&bytes);
}

#[test]
fn ensure_sized_hands_out_exactly_the_read() {
    let mut r = PerfGroupReader::new();
    assert_eq!(r.ensure_sized(2).len(), 56);
    assert_eq!(r.ensure_sized(1).len(), 40);
    assert_eq!(r.ensure_sized(4).len(), 88);
    assert_eq!(r.ensure_sized(0).len(), 24);
}

#[test]
fn buffer_keeps_what_it_held_past_a_smaller_read() {
    let mut r = PerfGroupReader::new();
    fill(r.ensure_sized(2), &[2, 10, 9, 1, 11, 2, 22]);
    fill(r.ensure_sized(1), &[1, 20, 19, 5, 55]);
    let (info, events) = r.decode_group(1).unwrap();
    assert_eq!(info, GroupInfo { time_enabled: 20, time_running: 19 });
    assert_eq!(events, vec![EventInfo { id: 55, count: 5 }]);
    let (_, events) = r.decode_group(2).unwrap();
    assert_eq!(events[1], EventInfo { id: 22, count: 2 });
}

#[test]
fn decodes_header_and_entries() {
    let words = [2u64, 1000, 900, 11, 101, 22, 102];
    let (h, e) = parse_group_read(&words, 2).unwrap();
    assert_eq!(h, PerfGroupReadHeader { nr: 2, time_enabled: 1000, time_running: 900 });
    assert_eq!(
        e,
        vec![PerfGroupReadEntry { value: 11, id: 101 }, PerfGroupReadEntry { value: 22, id: 102 }]
    );
}

#[test]
fn short_reads_are_refused() {
    assert!(matches!(parse_group_read(&[1, 2], 0), Err(Error::HeaderCast)));
    assert!(matches!(parse_group_read(&[1, 2, 3, 4], 1), Err(Error::EntryCast)));
    assert!(matches!(parse_group_read(&[1, 2, 3, 4, 5], 2), Err(Error::EntryCast)));
}

#[test]
fn reader_decodes_its_buffer() {
    let mut r = PerfGroupReader::new();
    fill(r.ensure_sized(1), &[1, 50, 40, 7, 99]);
    let (info, events) = r.decode_group(1).unwrap();
    assert_eq!(info, GroupInfo { time_enabled: 50, time_running: 40 });
    assert_eq!(events, vec![EventInfo { id: 99, count: 7 }]);
    assert!(matches!(r.decode_group(3), Err(Error::HeaderCast)));
}

#[test]
fn leader_asks_for_group_times_and_ids() {
    let cfgs = [
        PerfConfig::hardware_event(HardwareEvent::CpuCycles),
        PerfConfig::hardware_event(HardwareEvent::Instructions),
    ];
    let attrs = group_open_attrs(&cfgs).unwrap().into_vec();
    assert_eq!(attrs.len(), 2);
    assert_eq!(attrs[0].read_format, 15);
    assert_eq!(attrs[0].config, 0);
    assert_eq!(attrs[1].read_format, 0);
    assert_eq!(attrs[1], cfgs[1].attr());
}

#[test]
fn empty_group_is_an_error() {
    assert!(matches!(group_open_attrs(&[]), Err(Error::Empty)));
    assert!(matches!(Error::empty(), Error::Empty));
}

#[test]
fn sized_buffer_always_decodes() {
    let mut r = PerfGroupReader::default();
    for n in [3usize, 1, 0, 5] {
        r.ensure_sized(n);
        let (_, events) = r.decode_group(n).expect("buffer was sized for this group");
        assert_eq!(events.len(), n);
    }
}

#[test]
fn members_join_the_first_opened_counter() {
    assert_eq!(group_fd_for(None), -1);
    let leader = leader_after(None, 40);
    assert_eq!(leader, Some(40));
    assert_eq!(group_fd_for(leader), 40);
    let leader = leader_after(leader, 41);
    assert_eq!(leader, Some(40));
    assert_eq!(group_fd_for(leader), 40);
}
