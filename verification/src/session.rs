//! The bookkeeping of a sampling session: which threads have counter groups open, the ids
//! that number the group reads, and the rows a flush of a thread's groups writes.

use crate::csv_rows::{event_row_text, group_read_rows, read_row_text};
use crate::group_read::{EventInfo, GroupInfo};
use std::collections::HashMap;
use vstd::prelude::*;
use vstd::std_specs::iter::IteratorSpec;

verus! {

broadcast use vstd::std_specs::hash::group_hash_axioms;

/// The counter groups open for each sampled thread, by thread id.
pub struct ThreadGroups<G> {
    groups: HashMap<i32, Vec<G>>,
}

impl<G> View for ThreadGroups<G> {
    type V = Map<i32, Vec<G>>;

    closed spec fn view(&self) -> Map<i32, Vec<G>> {
        self.groups@
    }
}

impl<G> ThreadGroups<G> {
    /// No thread is sampled yet.
    pub fn new() -> (r: Self)
        ensures
            r@ == Map::<i32, Vec<G>>::empty(),
    {
        ThreadGroups { groups: HashMap::new() }
    }

    /// Whether thread `tid` has its groups open.
    pub fn is_open(&self, tid: i32) -> (r: bool)
        ensures
            r == self@.contains_key(tid),
    {
        self.groups.contains_key(&tid)
    }

    /// Starts sampling thread `tid` with the groups that `open_groups` opens for it. A thread
    /// that is already sampled is left as it is, and `open_groups` is not called for it but
    /// handed back unused.
    pub fn open_tid<F: FnOnce() -> Vec<G>>(&mut self, tid: i32, open_groups: F) -> (r: Option<F>)
        requires
            open_groups.requires(()),
        ensures
            old(self)@.contains_key(tid) <==> r is Some,
            r is Some ==> r == Some(open_groups) && final(self)@ == old(self)@,
            r is None ==> exists|groups: Vec<G>|
                open_groups.ensures((), groups) && final(self)@ == old(self)@.insert(tid, groups),
    {
        if self.groups.contains_key(&tid) {
            return Some(open_groups);
        }
        let groups = open_groups();
        self.groups.insert(tid, groups);
        None
    }

    /// Stops sampling thread `tid`, handing back its groups if it was sampled.
    pub fn close_tid(&mut self, tid: i32) -> (r: Option<Vec<G>>)
        ensures
            final(self)@ == old(self)@.remove(tid),
            old(self)@.contains_key(tid) ==> r == Some(old(self)@[tid]),
            !old(self)@.contains_key(tid) ==> r is None,
    {
        self.groups.remove(&tid)
    }

    /// The groups of thread `tid`, if it is sampled.
    pub fn groups_of(&self, tid: i32) -> (r: Option<&Vec<G>>)
        ensures
            self@.contains_key(tid) ==> r == Some(&self@[tid]),
            !self@.contains_key(tid) ==> r is None,
    {
        self.groups.get(&tid)
    }

    /// Every sampled thread, each once, in no particular order.
    pub fn tids(&self) -> (r: Vec<i32>)
        ensures
            r@.to_set() == self@.dom(),
            r@.no_duplicates(),
    {
        let mut out: Vec<i32> = Vec::new();
        let ghost keys: Seq<i32> = vstd::std_specs::hash::spec_keys_iter(&self.groups).remaining().unref();
        for tid in it: self.groups.keys()
            invariant
                it.seq().unref() == keys,
                keys.to_set() == self@.dom(),
                keys.no_duplicates(),
                out@ == keys.subrange(0, it.index()),
        {
            out.push(*tid);
            proof {
                assert(out@ =~= keys.subrange(0, it.index() + 1));
            }
        }
        proof {
            assert(out@ =~= keys);
        }
        out
    }
}

/// Closing a thread undoes opening it: a thread that was not sampled, once opened and closed,
/// leaves the table as it was, and closing it again changes nothing.
pub proof fn lemma_close_undoes_open<G>(table: Map<i32, Vec<G>>, tid: i32, groups: Vec<G>)
    requires
        !table.contains_key(tid),
    ensures
        table.insert(tid, groups).remove(tid) == table,
        table.insert(tid, groups).remove(tid).remove(tid) == table,
{
    assert(table.insert(tid, groups).remove(tid) =~= table);
    assert(table.remove(tid) =~= table);
}

/// The ids that number group reads: consecutive, starting from zero.
pub struct ReadIds {
    next: u64,
}

impl View for ReadIds {
    type V = u64;

    closed spec fn view(&self) -> u64 {
        self.next
    }
}

impl ReadIds {
    /// No read has been numbered yet.
    pub fn new() -> (r: Self)
        ensures
            r@ == 0,
    {
        ReadIds { next: 0 }
    }

    /// The id of the next read.
    pub fn peek(&self) -> (r: u64)
        ensures
            r == self@,
    {
        self.next
    }

    /// Numbers one read: hands out the next id and moves past it.
    pub fn take(&mut self) -> (r: u64)
        requires
            old(self)@ < u64::MAX,
        ensures
            r == old(self)@,
            final(self)@ == old(self)@ + 1,
    {
        let id = self.next;
        self.next = self.next + 1;
        id
    }
}

/// What one group read gave: its times and its counters, or nothing when the read failed.
pub open spec fn read_view(read: Option<(GroupInfo, Vec<EventInfo>)>) -> Option<(GroupInfo, Seq<EventInfo>)> {
    match read {
        Some((info, events)) => Some((info, events@)),
        None => None,
    }
}

/// The texts of the rows a flush step hands back.
pub open spec fn rows_view(rows: Option<(String, Vec<String>)>) -> Option<(Seq<char>, Seq<Seq<char>>)> {
    match rows {
        Some((head, lines)) => Some((head@, lines@.map_values(|line: String| line@))),
        None => None,
    }
}

/// The rows that the read of one group, numbered `read_id` and taken at `timestamp`, adds: the
/// read row and one event row per counter, in order, when the read succeeded, and none when
/// it failed.
pub open spec fn group_rows_spec(
    read_id: u64,
    timestamp: u128,
    read: Option<(GroupInfo, Seq<EventInfo>)>,
) -> Option<(Seq<char>, Seq<Seq<char>>)> {
    match read {
        Some((info, events)) => Some(
            (
                read_row_text(read_id, timestamp, info.time_running, info.time_enabled),
                Seq::new(
                    events.len(),
                    |i: int| event_row_text(read_id, events[i].count, events[i].id),
                ),
            ),
        ),
        None => None,
    }
}

/// One step of flushing a thread's groups: the group read takes the next id, whether or not it
/// succeeded, and a successful read gives its rows under that id.
pub fn flush_step(
    ids: &mut ReadIds,
    timestamp: u128,
    read: Option<(GroupInfo, Vec<EventInfo>)>,
) -> (r: Option<(String, Vec<String>)>)
    requires
        old(ids)@ < u64::MAX,
    ensures
        final(ids)@ == old(ids)@ + 1,
        rows_view(r) == group_rows_spec(old(ids)@, timestamp, read_view(read)),
        read is None <==> r is None,
        r matches Some((head, lines)) ==> read matches Some((info, events)) && head@
            == read_row_text(old(ids)@, timestamp, info.time_running, info.time_enabled)
            && lines@.len() == events@.len() && forall|i: int|
            0 <= i < lines@.len() ==> #[trigger] lines@[i]@ == event_row_text(
                old(ids)@,
                events@[i].count,
                events@[i].id,
            ),
{
    let read_id = ids.take();
    match read {
        None => None,
        Some((info, events)) => {
            let (head, lines) = group_read_rows(read_id, timestamp, info, events.as_slice());
            proof {
                let want = Seq::new(
                    events@.len(),
                    |i: int| event_row_text(read_id, events@[i].count, events@[i].id),
                );
                assert(lines@.map_values(|line: String| line@) =~= want);
            }
            Some((head, lines))
        },
    }
}

/// The rows of a successful group read all carry that read's id: the read row, and every event
/// row, one per counter in the read's order, whatever the counter's position; a failed read
/// gives no rows.
pub proof fn lemma_group_rows_share_the_read_id(
    read_id: u64,
    timestamp: u128,
    info: GroupInfo,
    events: Seq<EventInfo>,
)
    ensures
        group_rows_spec(read_id, timestamp, None) is None,
        group_rows_spec(read_id, timestamp, Some((info, events))) matches Some((head, rows))
            && head == read_row_text(read_id, timestamp, info.time_running, info.time_enabled)
            && rows.len() == events.len() && forall|i: int|
            0 <= i < events.len() ==> #[trigger] rows[i] == event_row_text(
                read_id,
                events[i].count,
                events[i].id,
            ),
{
}

/// A flush of groups whose reads, in list order, were `reads` (each with its timestamp),
/// starting at read id `first`: the next id once it is done, and the rows of each group.
pub open spec fn flush_spec(
    first: int,
    reads: Seq<(u128, Option<(GroupInfo, Seq<EventInfo>)>)>,
) -> (int, Seq<Option<(Seq<char>, Seq<Seq<char>>)>>)
    decreases reads.len(),
{
    if reads.len() == 0 {
        (first, Seq::empty())
    } else {
        let rest = flush_spec(first + 1, reads.drop_first());
        (rest.0, seq![group_rows_spec(first as u64, reads[0].0, reads[0].1)] + rest.1)
    }
}

/// Flushing `m` groups from read id `r`, one `flush_step` each, leaves the next id at `r + m`,
/// and group `j` of the list is numbered `r + j` whether or not its read succeeded: a
/// successful read gives its read row and its event rows under that id, a failed one none.
pub proof fn lemma_flush_numbers_consecutively(
    first: int,
    reads: Seq<(u128, Option<(GroupInfo, Seq<EventInfo>)>)>,
)
    requires
        0 <= first,
        first + reads.len() <= u64::MAX,
    ensures
        flush_spec(first, reads).0 == first + reads.len(),
        flush_spec(first, reads).1.len() == reads.len(),
        forall|j: int|
            0 <= j < reads.len() ==> #[trigger] flush_spec(first, reads).1[j] == group_rows_spec(
                (first + j) as u64,
                reads[j].0,
                reads[j].1,
            ),
    decreases reads.len(),
{
    if reads.len() > 0 {
        let rest = reads.drop_first();
        lemma_flush_numbers_consecutively(first + 1, rest);
        let out = flush_spec(first, reads).1;
        assert forall|j: int| 0 <= j < reads.len() implies #[trigger] out[j] == group_rows_spec(
            (first + j) as u64,
            reads[j].0,
            reads[j].1,
        ) by {
            if j > 0 {
                assert(rest[j - 1] == reads[j]);
                assert(out[j] == flush_spec(first + 1, rest).1[j - 1]);
            }
        }
    }
}

} // verus!
