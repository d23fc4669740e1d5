use threadstat::csv_rows::{desc_row, event_row, group_read_rows, read_row};
use threadstat::group_read::{EventInfo, GroupInfo};
use threadstat::decimal::decimal_text;

#[test]
fn decimal_matches_display() {
    for n in [0u128, 7, 10, 99, 100, 12345, u64::MAX as u128, u128::MAX] {
        assert_eq!(decimal_text(n), n.to_string());
    }
}

#[test]
fn event_row_format() {
    assert_eq!(event_row(3, 123456, 42), "3,123456,42\n");
}

#[test]
fn read_row_format() {
    assert_eq!(
        read_row(0, 1_700_000_000_123_456_789, 900, 1000),
        "0,1700000000123456789,900,1000\n"
    );
}

#[test]
fn desc_row_format() {
    assert_eq!(desc_row(77, "cycles", 4242), "77,cycles,4242\n");
    assert_eq!(desc_row(1, "x", -5), "1,x,-5\n");
    assert_eq!(desc_row(1, "y", i32::MIN), format!("1,y,{}\n", i32::MIN));
}

#[test]
fn group_read_rows_share_the_read_id() {
    let info = GroupInfo { time_enabled: 1000, time_running: 900 };
    let events = [EventInfo { id: 11, count: 5 }, EventInfo { id: 12, count: 0 }];
    let (read, rows) = group_read_rows(4, 55, info, &events);
    assert_eq!(read, "4,55,900,1000\n");
    assert_eq!(rows, vec!["4,5,11\n".to_string(), "4,0,12\n".to_string()]);
    let (read, rows) = group_read_rows(0, 1, info, &[]);
    assert_eq!(read, "0,1,900,1000\n");
    assert!(rows.is_empty());
}
