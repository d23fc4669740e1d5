//! Reading a counter group: the buffer that a group read lands in, and the decoding of what
//! the kernel wrote there (`PERF_FORMAT_GROUP` with both total times and ids).

use crate::non_empty::NonEmpty;
use crate::perf_config::{
    PerfConfig, PerfEventAttr, PERF_FORMAT_GROUP, PERF_FORMAT_ID, PERF_FORMAT_TOTAL_TIME_ENABLED,
    PERF_FORMAT_TOTAL_TIME_RUNNING,
};
use vstd::prelude::*;

verus! {

#[verifier::external_type_specification]
#[verifier::external_body]
pub struct ExIoError(std::io::Error);

/// What can go wrong opening or reading a counter group.
#[derive(Debug)]
pub enum Error {
    /// A system call failed.
    IO(std::io::Error),
    /// A group was asked for with no counters in it.
    Empty,
    /// The read is too short to hold the group header.
    HeaderCast,
    /// What follows the header is not one entry per counter of the group.
    EntryCast,
}

impl Error {
    /// The error for a group with no counters.
    pub fn empty() -> (r: Self)
        ensures
            r is Empty,
    {
        Error::Empty
    }
}

/// The header of a group read: the number of counters and the group's two total times.
#[derive(Clone, Copy, Debug, PartialEq, Eq)]
pub struct PerfGroupReadHeader {
    pub nr: u64,
    pub time_enabled: u64,
    pub time_running: u64,
}

/// One counter of a group read: its value and its id.
#[derive(Clone, Copy, Debug, PartialEq, Eq)]
pub struct PerfGroupReadEntry {
    pub value: u64,
    pub id: u64,
}

/// The times of one group read.
#[derive(Clone, Copy, Debug, PartialEq, Eq)]
pub struct GroupInfo {
    pub time_enabled: u64,
    pub time_running: u64,
}

/// One counter of one group read.
#[derive(Clone, Copy, Debug, PartialEq, Eq)]
pub struct EventInfo {
    pub id: u64,
    pub count: u64,
}

/// The number of 64-bit words a read of a group of `count` counters fills.
pub open spec fn group_read_words(count: nat) -> nat {
    3 + 2 * count
}

/// The number of bytes a read of a group of `count` counters fills.
pub open spec fn group_read_bytes(count: nat) -> nat {
    24 + 16 * count
}

/// The header at the start of `words`.
pub open spec fn header_of(words: Seq<u64>) -> PerfGroupReadHeader {
    PerfGroupReadHeader { nr: words[0], time_enabled: words[1], time_running: words[2] }
}

/// Counter `i` of the read in `words`.
pub open spec fn entry_of(words: Seq<u64>, i: int) -> PerfGroupReadEntry {
    PerfGroupReadEntry { value: words[3 + 2 * i], id: words[4 + 2 * i] }
}

/// The read format that the leader of every group is opened with.
pub open spec fn leader_read_format() -> u64 {
    PERF_FORMAT_GROUP | PERF_FORMAT_TOTAL_TIME_ENABLED | PERF_FORMAT_TOTAL_TIME_RUNNING
        | PERF_FORMAT_ID
}

/// The size in bytes of a read of a group of `count` counters.
pub fn necessary_buffer_size(count: usize) -> (r: usize)
    requires
        group_read_bytes(count as nat) <= usize::MAX,
    ensures
        r == group_read_bytes(count as nat),
{
    24 + count * 16
}

/// Decodes a group read that filled `words`, for a group of `count` counters.
pub fn parse_group_read(words: &[u64], count: usize) -> (r: Result<
    (PerfGroupReadHeader, Vec<PerfGroupReadEntry>),
    Error,
>)
    ensures
        words@.len() < 3 ==> r matches Err(Error::HeaderCast),
        words@.len() >= 3 && words@.len() != group_read_words(count as nat) ==> r matches Err(
            Error::EntryCast,
        ),
        words@.len() == group_read_words(count as nat) ==> (r matches Ok((header, entries)) && {
            &&& header == header_of(words@)
            &&& entries@.len() == count
            &&& forall|i: int| 0 <= i < count ==> #[trigger] entries@[i] == entry_of(words@, i)
        }),
{
    if words.len() < 3 {
        return Err(Error::HeaderCast);
    }
    let header = PerfGroupReadHeader {
        nr: words[0],
        time_enabled: words[1],
        time_running: words[2],
    };
    let rest = words.len() - 3;
    if rest % 2 != 0 || rest / 2 != count {
        return Err(Error::EntryCast);
    }
    assert(words@.len() == group_read_words(count as nat)) by (nonlinear_arith)
        requires
            rest == words@.len() - 3,
            rest % 2 == 0,
            rest / 2 == count,
    ;
    let mut entries: Vec<PerfGroupReadEntry> = Vec::new();
    let mut i: usize = 0;
    while i < count
        invariant
            words@.len() == group_read_words(count as nat),
            words@.len() <= usize::MAX,
            i <= count,
            entries@.len() == i,
            forall|j: int| 0 <= j < i ==> #[trigger] entries@[j] == entry_of(words@, j),
        decreases count - i,
    {
        entries.push(PerfGroupReadEntry { value: words[3 + 2 * i], id: words[4 + 2 * i] });
        i = i + 1;
    }
    Ok((header, entries))
}

/// Trusted: zerocopy's `IntoBytes::as_mut_bytes` on a slice of words, which hands out the
/// words' own memory as bytes, eight per word, so that the slice keeps its length. How the
/// bytes make up each word is the machine's byte order and is left unsaid.
#[verifier::external_body]
fn words_as_bytes(words: &mut [u64]) -> (r: &mut [u8])
    ensures
        r@.len() == 8 * old(words)@.len(),
        final(words)@.len() == old(words)@.len(),
{
    zerocopy::IntoBytes::as_mut_bytes(words)
}

/// The buffer that group reads land in. It only ever grows, so reading groups of similar
/// sizes allocates once.
pub struct PerfGroupReader {
    buf: Vec<u64>,
}

impl View for PerfGroupReader {
    type V = Seq<u64>;

    closed spec fn view(&self) -> Seq<u64> {
        self.buf@
    }
}

impl PerfGroupReader {
    /// A reader that has not allocated anything yet.
    pub fn new() -> (r: Self)
        ensures
            r@.len() == 0,
    {
        PerfGroupReader { buf: Vec::new() }
    }

    /// Makes room for a read of a group of `count` counters and hands out exactly the bytes
    /// that read fills, which are the first words of the buffer. The buffer grows to that size
    /// when it is smaller and is never shrunk; the words past the read are left as they were.
    pub fn ensure_sized(&mut self, count: usize) -> (r: &mut [u8])
        requires
            group_read_bytes(count as nat) <= isize::MAX,
        ensures
            r@.len() == group_read_bytes(count as nat),
            final(self)@.len() == vstd::math::max(
                old(self)@.len() as int,
                group_read_words(count as nat) as int,
            ),
            old(self)@.len() > group_read_words(count as nat) ==> final(self)@.subrange(
                group_read_words(count as nat) as int,
                old(self)@.len() as int,
            ) == old(self)@.subrange(group_read_words(count as nat) as int, old(self)@.len() as int),
    {
        let need = 3 + 2 * count;
        if self.buf.len() < need {
            self.buf.resize(need, 0);
        }
        let whole = self.buf.as_mut_slice();
        let (head, tail) = whole.split_at_mut(need);
        proof {
            assert(tail@ == old(self)@.subrange(need as int, old(self)@.len() as int)
                || old(self)@.len() <= need);
        }
        words_as_bytes(head)
    }

    /// Decodes the read of a group of `count` counters that the buffer holds: the group's times
    /// from the header, then each counter's id and value in order.
    pub fn decode_group(&self, count: usize) -> (r: Result<(GroupInfo, Vec<EventInfo>), Error>)
        ensures
            self@.len() < group_read_words(count as nat) ==> r matches Err(Error::HeaderCast),
            self@.len() >= group_read_words(count as nat) ==> (r matches Ok((info, events)) && {
                &&& info.time_enabled == self@[1]
                &&& info.time_running == self@[2]
                &&& events@.len() == count
                &&& forall|i: int|
                    0 <= i < count ==> #[trigger] events@[i] == (EventInfo {
                        id: entry_of(self@, i).id,
                        count: entry_of(self@, i).value,
                    })
            }),
    {
        let held = self.buf.len();
        if count > (usize::MAX - 3) / 2 || held < 3 + 2 * count {
            return Err(Error::HeaderCast);
        }
        let (words, _rest) = self.buf.as_slice().split_at(3 + 2 * count);
        match parse_group_read(words, count) {
            Ok((header, entries)) => {
                let mut events: Vec<EventInfo> = Vec::new();
                let mut i: usize = 0;
                while i < count
                    invariant
                        entries@.len() == count,
                        i <= count,
                        events@.len() == i,
                        forall|k: int| 0 <= k < count ==> #[trigger] entries@[k] == entry_of(words@, k),
                        words@.len() == group_read_words(count as nat),
                        self@.len() >= group_read_words(count as nat),
                        forall|k: int| 0 <= k < words@.len() ==> #[trigger] words@[k] == self@[k],
                        forall|j: int|
                            0 <= j < i ==> #[trigger] events@[j] == (EventInfo {
                                id: entry_of(self@, j).id,
                                count: entry_of(self@, j).value,
                            }),
                    decreases count - i,
                {
                    let e = entries[i];
                    events.push(EventInfo { id: e.id, count: e.value });
                    i = i + 1;
                }
                Ok((GroupInfo { time_enabled: header.time_enabled, time_running: header.time_running }, events))
            },
            Err(e) => Err(e),
        }
    }
}

impl Default for PerfGroupReader {
    fn default() -> (r: Self)
        ensures
            r@.len() == 0,
    {
        Self::new()
    }
}

/// The attributes to open a group with, leader first: the leader's read format asks for the
/// whole group, both total times and the ids; the other members are opened as configured.
pub fn group_open_attrs(configs: &[PerfConfig]) -> (r: Result<NonEmpty<PerfEventAttr>, Error>)
    ensures
        configs@.len() == 0 <==> r matches Err(Error::Empty),
        configs@.len() > 0 <==> r is Ok,
        r is Ok ==> (r matches Ok(attrs) && {
            &&& attrs@.len() == configs@.len()
            &&& attrs@[0] == (PerfEventAttr { read_format: leader_read_format(), ..configs@[0].0 })
            &&& forall|i: int| 1 <= i < configs@.len() ==> #[trigger] attrs@[i] == configs@[i].0
        }),
{
    if configs.len() == 0 {
        return Err(Error::empty());
    }
    let mut leader = configs[0].0;
    leader.read_format = PERF_FORMAT_GROUP | PERF_FORMAT_TOTAL_TIME_ENABLED
        | PERF_FORMAT_TOTAL_TIME_RUNNING | PERF_FORMAT_ID;
    let mut rest: Vec<PerfEventAttr> = Vec::new();
    rest.push(leader);
    let mut i: usize = 1;
    while i < configs.len()
        invariant
            1 <= i <= configs@.len(),
            rest@.len() == i,
            rest@[0] == (PerfEventAttr { read_format: leader_read_format(), ..configs@[0].0 }),
            forall|j: int| 1 <= j < i ==> #[trigger] rest@[j] == configs@[j].0,
        decreases configs@.len() - i,
    {
        rest.push(configs[i].0);
        i = i + 1;
    }
    match crate::non_empty::MaybeNonEmpty::from_vec(rest).into_option() {
        Some(ne) => Ok(ne),
        None => Err(Error::empty()),
    }
}

/// The group a counter joins as it is opened: `-1`, a group of its own, while no leader is open
/// yet, and the leader's descriptor afterwards.
pub fn group_fd_for(leader: Option<i32>) -> (r: i32)
    ensures
        leader is None ==> r == -1,
        leader matches Some(fd) ==> r == fd,
{
    match leader {
        None => -1,
        Some(fd) => fd,
    }
}

/// The leader once a counter was opened as `opened`: the first counter opened leads the group,
/// and the leader never changes afterwards.
pub fn leader_after(leader: Option<i32>, opened: i32) -> (r: Option<i32>)
    ensures
        leader is None ==> r == Some(opened),
        leader is Some ==> r == leader,
{
    match leader {
        None => Some(opened),
        Some(fd) => Some(fd),
    }
}

} // verus!
