//! The rows of the three CSV files a sampling session writes: one per counter value, one per
//! group read, and one per counter opened.

use crate::decimal::{decimal, push_decimal, push_signed_decimal, signed_decimal};
use crate::group_read::{EventInfo, GroupInfo};
use vstd::prelude::*;

verus! {

/// The text of the row for one counter value: `read_id,count,event_id` and a newline.
pub open spec fn event_row_text(read_id: u64, count: u64, id: u64) -> Seq<char> {
    decimal(read_id as nat) + seq![','] + decimal(count as nat) + seq![','] + decimal(id as nat)
        + seq!['\n']
}

/// The text of the row for one group read: `read_id,timestamp,time_running,time_enabled` and a
/// newline.
pub open spec fn read_row_text(
    read_id: u64,
    timestamp: u128,
    time_running: u64,
    time_enabled: u64,
) -> Seq<char> {
    decimal(read_id as nat) + seq![','] + decimal(timestamp as nat) + seq![','] + decimal(
        time_running as nat,
    ) + seq![','] + decimal(time_enabled as nat) + seq!['\n']
}

fn push_comma(out: &mut String)
    ensures
        final(out)@ == old(out)@ + seq![','],
{
    proof {
        reveal_strlit(",");
    }
    out.append(",");
}

fn push_newline(out: &mut String)
    ensures
        final(out)@ == old(out)@ + seq!['\n'],
{
    proof {
        reveal_strlit("\n");
    }
    out.append("\n");
}

/// The row for one counter value of a group read: `read_id,count,event_id`.
pub fn event_row(read_id: u64, count: u64, id: u64) -> (r: String)
    ensures
        r@ == event_row_text(read_id, count, id),
{
    let mut out = String::new();
    push_decimal(&mut out, read_id as u128);
    push_comma(&mut out);
    push_decimal(&mut out, count as u128);
    push_comma(&mut out);
    push_decimal(&mut out, id as u128);
    push_newline(&mut out);
    proof {
        assert(out@ =~= decimal(read_id as nat) + seq![','] + decimal(count as nat) + seq![',']
            + decimal(id as nat) + seq!['\n']);
    }
    out
}

/// The row for one group read: `read_id,timestamp,time_running,time_enabled`.
pub fn read_row(read_id: u64, timestamp: u128, time_running: u64, time_enabled: u64) -> (r: String)
    ensures
        r@ == read_row_text(read_id, timestamp, time_running, time_enabled),
{
    let mut out = String::new();
    push_decimal(&mut out, read_id as u128);
    push_comma(&mut out);
    push_decimal(&mut out, timestamp);
    push_comma(&mut out);
    push_decimal(&mut out, time_running as u128);
    push_comma(&mut out);
    push_decimal(&mut out, time_enabled as u128);
    push_newline(&mut out);
    proof {
        assert(out@ =~= decimal(read_id as nat) + seq![','] + decimal(timestamp as nat) + seq![',']
            + decimal(time_running as nat) + seq![','] + decimal(time_enabled as nat) + seq!['\n']);
    }
    out
}

/// The rows that one group read adds: the read row, with the group's times, and one event row
/// per counter, in the order the read lists them, all under the same `read_id`.
pub fn group_read_rows(read_id: u64, timestamp: u128, info: GroupInfo, events: &[EventInfo]) -> (r: (
    String,
    Vec<String>,
))
    ensures
        r.0@ == read_row_text(read_id, timestamp, info.time_running, info.time_enabled),
        r.1.len() == events.len(),
        forall|i: int|
            0 <= i < events.len() ==> #[trigger] r.1[i]@ == event_row_text(
                read_id,
                events[i].count,
                events[i].id,
            ),
{
    let head = read_row(read_id, timestamp, info.time_running, info.time_enabled);
    let mut rows: Vec<String> = Vec::new();
    let mut k: usize = 0;
    while k < events.len()
        invariant
            k <= events.len(),
            rows.len() == k,
            forall|i: int|
                0 <= i < k ==> #[trigger] rows[i]@ == event_row_text(
                    read_id,
                    events[i].count,
                    events[i].id,
                ),
        decreases events.len() - k,
    {
        let row = event_row(read_id, events[k].count, events[k].id);
        rows.push(row);
        k = k + 1;
    }
    (head, rows)
}

/// The row describing one opened counter: `event_id,name,pid`.
pub fn desc_row(id: u64, name: &str, tid: i32) -> (r: String)
    ensures
        r@ == decimal(id as nat) + seq![','] + name@ + seq![','] + signed_decimal(tid as int)
            + seq!['\n'],
{
    let mut out = String::new();
    push_decimal(&mut out, id as u128);
    push_comma(&mut out);
    out.append(name);
    push_comma(&mut out);
    push_signed_decimal(&mut out, tid as i64);
    push_newline(&mut out);
    proof {
        assert(out@ =~= decimal(id as nat) + seq![','] + name@ + seq![','] + signed_decimal(
            tid as int,
        ) + seq!['\n']);
    }
    out
}

} // verus!
