//! One round of the polling loop, as a state machine over the table of watched sources: each
//! report that reached a handler is a step, and the round ends at the first step that stops
//! the loop or fails, or when the reports run out. The caller runs the handlers and takes
//! unwatched descriptors out of the epoll set; the laws below say what a whole round does.

use crate::poll_logic::{outcome_spec, round_result, PollAction, SourceOutcome};
use crate::source_table::SourceTable;
use vstd::prelude::*;

verus! {

/// What the caller does after one step of a round.
#[derive(Debug)]
pub enum RoundStep<E> {
    /// Go on with the next report.
    Next,
    /// The source was taken out of the table: take this descriptor out of the epoll set,
    /// then go on with the next report.
    Unwatch(i32),
    /// The round is over, with this result.
    End(Result<PollAction, E>),
}

/// What a round reports when every report was handled without ending it: `Stop` when no
/// source is left, since waiting on an empty set never ends, and `Continue` otherwise.
pub open spec fn end_action(table: Map<usize, i32>) -> PollAction {
    if table.len() == 0 {
        PollAction::Stop
    } else {
        PollAction::Continue
    }
}

/// The table after the step for the source under `key`, whose handler's outcome was `outcome`.
pub open spec fn step_table<E>(
    table: Map<usize, i32>,
    key: usize,
    outcome: SourceOutcome<E>,
) -> Map<usize, i32> {
    match outcome {
        SourceOutcome::Deregister => table.remove(key),
        _ => table,
    }
}

/// What the caller does after that step.
pub open spec fn step_spec<E>(
    table: Map<usize, i32>,
    key: usize,
    outcome: SourceOutcome<E>,
) -> RoundStep<E> {
    match outcome {
        SourceOutcome::StopLoop => RoundStep::End(Ok(PollAction::Stop)),
        SourceOutcome::Fail(e) => RoundStep::End(Err(e)),
        SourceOutcome::Deregister => if table.contains_key(key) {
            RoundStep::Unwatch(table[key])
        } else {
            RoundStep::Next
        },
        SourceOutcome::Keep => RoundStep::Next,
    }
}

/// Applies the outcome of the handler of the source under `key` to the table: a source to
/// deregister leaves it, and its descriptor is handed back for the epoll set (a key already
/// gone is nothing to do); a stop or a failure ends the round and changes nothing.
pub fn round_step<E>(table: &mut SourceTable, key: usize, outcome: SourceOutcome<E>) -> (r:
    RoundStep<E>)
    ensures
        final(table)@ == step_table(old(table)@, key, outcome),
        r == step_spec(old(table)@, key, outcome),
{
    match outcome {
        SourceOutcome::StopLoop => RoundStep::End(Ok(PollAction::Stop)),
        SourceOutcome::Fail(e) => RoundStep::End(Err(e)),
        SourceOutcome::Deregister => match table.deregister(key) {
            Some(fd) => RoundStep::Unwatch(fd),
            None => RoundStep::Next,
        },
        SourceOutcome::Keep => RoundStep::Next,
    }
}

/// What the round reports once every report was handled without ending it.
pub fn round_end(table: &SourceTable) -> (r: PollAction)
    ensures
        r == end_action(table@),
        table@.len() == 0 ==> r == PollAction::Stop,
        table@.len() > 0 ==> r == PollAction::Continue,
{
    round_result(table.len())
}

/// A round that no handler ended goes on exactly while some source is left to wait on: it
/// reports `Continue` for every table that still watches a source, whatever their number, and
/// `Stop` for an empty one; it never reports `Remove`.
pub proof fn lemma_end_action_follows_what_is_left(table: Map<usize, i32>)
    ensures
        table.len() > 0 ==> end_action(table) == PollAction::Continue,
        table.len() == 0 ==> end_action(table) == PollAction::Stop,
        end_action(table) != PollAction::Remove,
{
}

/// A report that reached a handler: the source's key, whether it hung up, and what its handler
/// returned.
pub type Reply<E> = (usize, bool, Result<PollAction, E>);

/// The outcome of one reply.
pub open spec fn reply_outcome<E>(reply: Reply<E>) -> SourceOutcome<E> {
    outcome_spec(reply.2, reply.1)
}

/// Whether a reply ends the round: its handler stopped the loop, or failed on a live source.
pub open spec fn ends_round<E>(reply: Reply<E>) -> bool {
    reply_outcome(reply) is StopLoop || reply_outcome(reply) is Fail
}

/// The result a reply that ends the round gives it.
pub open spec fn end_result<E>(reply: Reply<E>) -> Result<PollAction, E> {
    match reply_outcome(reply) {
        SourceOutcome::Fail(e) => Err(e),
        _ => Ok(PollAction::Stop),
    }
}

/// The keys that replies take out of the table: those whose handler asked for removal, and
/// those of sources that hung up.
pub open spec fn removed_keys<E>(replies: Seq<Reply<E>>) -> Set<usize> {
    Set::new(
        |k: usize|
            exists|i: int|
                0 <= i < replies.len() && #[trigger] replies[i].0 == k && reply_outcome(replies[i])
                    is Deregister,
    )
}

/// A round over `replies`, taken one step at a time from `table`, when every source that leaves
/// the table also leaves the epoll set: the table it leaves behind and what it reports.
pub open spec fn round_spec<E>(table: Map<usize, i32>, replies: Seq<Reply<E>>) -> (
    Map<usize, i32>,
    Result<PollAction, E>,
)
    decreases replies.len(),
{
    if replies.len() == 0 {
        (table, Ok(end_action(table)))
    } else {
        let reply = replies[0];
        let outcome = reply_outcome(reply);
        match step_spec(table, reply.0, outcome) {
            RoundStep::End(res) => (table, res),
            _ => round_spec(step_table(table, reply.0, outcome), replies.drop_first()),
        }
    }
}

/// A round in which no handler stops the loop or fails on a live source leaves exactly the
/// sources it started with, less those whose handler asked for removal and those that hung up
/// (whatever their handler returned); it then reports `Stop` when none is left and `Continue`
/// otherwise.
pub proof fn lemma_round_without_end<E>(table: Map<usize, i32>, replies: Seq<Reply<E>>)
    requires
        forall|i: int| 0 <= i < replies.len() ==> !ends_round(#[trigger] replies[i]),
    ensures
        round_spec(table, replies).0 == table.remove_keys(removed_keys(replies)),
        round_spec(table, replies).1 == Ok::<PollAction, E>(
            end_action(table.remove_keys(removed_keys(replies))),
        ),
    decreases replies.len(),
{
    if replies.len() == 0 {
        assert(table.remove_keys(removed_keys(replies)) =~= table);
    } else {
        let reply = replies[0];
        let rest = replies.drop_first();
        let next = step_table(table, reply.0, reply_outcome(reply));
        assert(!ends_round(replies[0]));
        assert forall|i: int| 0 <= i < rest.len() implies !ends_round(#[trigger] rest[i]) by {
            assert(rest[i] == replies[i + 1]);
        }
        lemma_round_without_end(next, rest);
        assert forall|k: usize| removed_keys(replies).contains(k) <==> (removed_keys(
            rest,
        ).contains(k) || (k == reply.0 && reply_outcome(reply) is Deregister)) by {
            if removed_keys(replies).contains(k) {
                let i = choose|i: int|
                    0 <= i < replies.len() && #[trigger] replies[i].0 == k && reply_outcome(
                        replies[i],
                    ) is Deregister;
                if i > 0 {
                    assert(rest[i - 1] == replies[i]);
                }
            }
            if removed_keys(rest).contains(k) {
                let j = choose|j: int|
                    0 <= j < rest.len() && #[trigger] rest[j].0 == k && reply_outcome(rest[j])
                        is Deregister;
                assert(replies[j + 1] == rest[j]);
            }
            if k == reply.0 && reply_outcome(reply) is Deregister {
                assert(replies[0].0 == k);
            }
        }
        assert(next.remove_keys(removed_keys(rest)) =~= table.remove_keys(removed_keys(replies)));
    }
}

/// A round ends at the first handler that stops the loop or fails on a live source: it reports
/// `Stop` or that handler's error, that handler's source stays in the table (even when it hung
/// up), only the earlier replies have taken sources out, and nothing after it has any effect,
/// since no later handler runs.
pub proof fn lemma_round_ends_at_first_end<E>(
    table: Map<usize, i32>,
    before: Seq<Reply<E>>,
    last: Reply<E>,
    after: Seq<Reply<E>>,
)
    requires
        forall|i: int| 0 <= i < before.len() ==> !ends_round(#[trigger] before[i]),
        ends_round(last),
    ensures
        round_spec(table, before.push(last) + after) == (
            table.remove_keys(removed_keys(before)),
            end_result(last),
        ),
    decreases before.len(),
{
    let all = before.push(last) + after;
    if before.len() == 0 {
        assert(all[0] == last);
        assert(table.remove_keys(removed_keys(before)) =~= table);
    } else {
        let reply = before[0];
        let rest = before.drop_first();
        assert(all[0] == reply);
        assert(all.drop_first() =~= rest.push(last) + after);
        assert(!ends_round(before[0]));
        assert forall|i: int| 0 <= i < rest.len() implies !ends_round(#[trigger] rest[i]) by {
            assert(rest[i] == before[i + 1]);
        }
        let next = step_table(table, reply.0, reply_outcome(reply));
        lemma_round_ends_at_first_end(next, rest, last, after);
        assert forall|k: usize| removed_keys(before).contains(k) <==> (removed_keys(
            rest,
        ).contains(k) || (k == reply.0 && reply_outcome(reply) is Deregister)) by {
            if removed_keys(before).contains(k) {
                let i = choose|i: int|
                    0 <= i < before.len() && #[trigger] before[i].0 == k && reply_outcome(
                        before[i],
                    ) is Deregister;
                if i > 0 {
                    assert(rest[i - 1] == before[i]);
                }
            }
            if removed_keys(rest).contains(k) {
                let j = choose|j: int|
                    0 <= j < rest.len() && #[trigger] rest[j].0 == k && reply_outcome(rest[j])
                        is Deregister;
                assert(before[j + 1] == rest[j]);
            }
            if k == reply.0 && reply_outcome(reply) is Deregister {
                assert(before[0].0 == k);
            }
        }
        assert(next.remove_keys(removed_keys(rest)) =~= table.remove_keys(removed_keys(before)));
    }
}

/// A round never reports `Remove`, which is a request about one source only; it reports
/// `Continue` only while some source is left, and a round that ends well with no source left
/// reports `Stop`.
pub proof fn lemma_round_result<E>(table: Map<usize, i32>, replies: Seq<Reply<E>>)
    ensures
        round_spec(table, replies).1 != Ok::<PollAction, E>(PollAction::Remove),
        round_spec(table, replies).1 == Ok::<PollAction, E>(PollAction::Continue) ==> round_spec(
            table,
            replies,
        ).0.len() > 0,
        round_spec(table, replies).1 is Ok && round_spec(table, replies).0.len() == 0
            ==> round_spec(table, replies).1 == Ok::<PollAction, E>(PollAction::Stop),
    decreases replies.len(),
{
    if replies.len() > 0 {
        let reply = replies[0];
        lemma_round_result(
            step_table(table, reply.0, reply_outcome(reply)),
            replies.drop_first(),
        );
    }
}

} // verus!
