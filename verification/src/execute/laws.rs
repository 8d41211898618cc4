//! What holds of every execution, whatever the nodes answer and whenever
//! they do.

use vstd::prelude::*;
use crate::entity::AccountId;
use crate::error::Error;
use crate::execute::backoff::lemma_jittered_bounds;
use crate::execute::engine::{lemma_next_wf, Action, ExecutionModel};
use crate::execute::nodes::{lemma_mark_one, unmarked};
use crate::execute::status::ExecutionOutcome;

verus! {

/// What the caller reports of one attempt: its outcome, the time at which
/// the caller saw it, and the random number for the delay.
pub struct Event {
    pub outcome: ExecutionOutcome,
    pub now: u64,
    pub jitter: u64,
}

/// The state after a sequence of events.
pub open spec fn run(m: ExecutionModel, events: Seq<Event>) -> ExecutionModel
    decreases events.len(),
{
    if events.len() == 0 {
        m
    } else {
        let e = events.last();
        run(m, events.drop_last()).next(e.outcome, e.now, e.jitter).0
    }
}

/// The action that answers the event at position `k` of a sequence.
pub open spec fn action_at(m: ExecutionModel, events: Seq<Event>, k: int) -> Action {
    let e = events[k];
    run(m, events.take(k)).next(e.outcome, e.now, e.jitter).1
}

/// Every state of a run is well formed.
pub proof fn lemma_run_wf(m: ExecutionModel, events: Seq<Event>)
    requires
        m.wf(),
    ensures
        run(m, events).wf(),
    decreases events.len(),
{
    if events.len() > 0 {
        let e = events.last();
        lemma_run_wf(m, events.drop_last());
        lemma_next_wf(run(m, events.drop_last()), e.outcome, e.now, e.jitter);
    }
}

/// One step keeps the identifier, the nodes and the policy, and every
/// attempt and every failure that it answers with names the identifier of
/// the execution.
pub proof fn lemma_step_keeps_identifier(
    m: ExecutionModel,
    outcome: ExecutionOutcome,
    now: u64,
    jitter: u64,
)
    ensures
        m.next(outcome, now, jitter).0.transaction_id == m.transaction_id,
        m.next(outcome, now, jitter).0.nodes == m.nodes,
        m.next(outcome, now, jitter).0.policy == m.policy,
        m.next(outcome, now, jitter).1 matches Action::Transmit { transaction_id, .. }
            ==> transaction_id == m.transaction_id,
        m.next(outcome, now, jitter).1 matches Action::Fail(Error::Timeout { transaction_id, .. })
            ==> transaction_id == m.transaction_id,
        m.next(outcome, now, jitter).1 matches Action::Fail(
            Error::TerminalStatus { transaction_id, .. },
        ) ==> transaction_id == m.transaction_id,
{
}

/// The identifier that the first attempt is sent under is the identifier of
/// every later attempt: no sequence of outcomes changes it, and every
/// attempt that the engine asks for names it.
pub proof fn lemma_identifier_is_stable(m: ExecutionModel, events: Seq<Event>)
    ensures
        run(m, events).transaction_id == m.transaction_id,
        run(m, events).nodes == m.nodes,
        run(m, events).policy == m.policy,
        forall|k: int|
            0 <= k < events.len() ==> (#[trigger] action_at(m, events, k) matches Action::Transmit {
                transaction_id,
                ..
            } ==> transaction_id == m.transaction_id),
    decreases events.len(),
{
    if events.len() > 0 {
        let e = events.last();
        lemma_identifier_is_stable(m, events.drop_last());
        lemma_step_keeps_identifier(run(m, events.drop_last()), e.outcome, e.now, e.jitter);
    }
    assert forall|k: int| 0 <= k < events.len() implies (#[trigger] action_at(m, events, k) matches Action::Transmit {
        transaction_id,
        ..
    } ==> transaction_id == m.transaction_id) by {
        let e = events[k];
        lemma_identifier_is_stable(m, events.take(k));
        lemma_step_keeps_identifier(run(m, events.take(k)), e.outcome, e.now, e.jitter);
    }
}

/// What one step does to the marks: a node that is marked stays marked; a
/// node that was found unreachable is marked; and the node of the attempt
/// that the step asks for is not marked.
pub proof fn lemma_step_marks(
    m: ExecutionModel,
    outcome: ExecutionOutcome,
    now: u64,
    jitter: u64,
    node: AccountId,
)
    requires
        m.wf(),
    ensures
        m.is_unreachable(node) ==> m.next(outcome, now, jitter).0.is_unreachable(node),
        !m.finished && outcome is Unreachable ==> m.next(outcome, now, jitter).0.is_unreachable(
            m.node(),
        ),
        m.next(outcome, now, jitter).1 matches Action::Transmit { node: target, .. } ==> !m.next(
            outcome,
            now,
            jitter,
        ).0.is_unreachable(target) && m.nodes.contains(target),
{
    let after = m.next(outcome, now, jitter).0;
    lemma_next_wf(m, outcome, now, jitter);
    lemma_step_keeps_identifier(m, outcome, now, jitter);
    if m.is_unreachable(node) {
        let i = choose|i: int|
            #![trigger m.nodes[i]]
            0 <= i < m.nodes.len() && m.nodes[i] == node && m.unreachable[i];
        assert(after.nodes[i] == node && after.unreachable[i]);
    }
    if !m.finished && outcome is Unreachable {
        assert(after.nodes[m.current] == m.node() && after.unreachable[m.current]);
    }
    if let Action::Transmit { node: target, .. } = m.next(outcome, now, jitter).1 {
        assert(after.nodes[after.current] == target);
        assert(!after.unreachable[after.current]);
        assert(m.nodes.contains(target));
        if after.is_unreachable(target) {
            let i = choose|i: int|
                #![trigger after.nodes[i]]
                0 <= i < after.nodes.len() && after.nodes[i] == target && after.unreachable[i];
            assert(i == after.current);
        }
    }
}

/// A mark outlasts every sequence of events.
pub proof fn lemma_marks_stay(m: ExecutionModel, events: Seq<Event>, node: AccountId)
    requires
        m.wf(),
        m.is_unreachable(node),
    ensures
        run(m, events).is_unreachable(node),
    decreases events.len(),
{
    if events.len() > 0 {
        let e = events.last();
        lemma_marks_stay(m, events.drop_last(), node);
        lemma_run_wf(m, events.drop_last());
        lemma_step_marks(run(m, events.drop_last()), e.outcome, e.now, e.jitter, node);
    }
}

/// A node that was found unreachable is never tried again in the same
/// execution: if the attempt that the event at `k` reports of ended
/// unreachable, no later event of the run is answered with an attempt at
/// that node.
pub proof fn lemma_unreachable_node_is_not_tried_again(
    m: ExecutionModel,
    events: Seq<Event>,
    k: int,
    j: int,
)
    requires
        m.wf(),
        0 <= k < j < events.len(),
        events[k].outcome is Unreachable,
        !run(m, events.take(k)).finished,
    ensures
        !(action_at(m, events, j) matches Action::Transmit { node, .. } && node == run(
            m,
            events.take(k),
        ).node()),
{
    let before = run(m, events.take(k));
    let failed = before.node();
    let e = events[k];
    lemma_run_wf(m, events.take(k));
    lemma_step_marks(before, e.outcome, e.now, e.jitter, failed);
    let marked = before.next(e.outcome, e.now, e.jitter).0;
    assert(events.take(k + 1).drop_last() =~= events.take(k));
    assert(run(m, events.take(k + 1)) == marked);
    lemma_run_wf(m, events.take(k + 1));
    // The events between the two positions, run from the state with the mark.
    let between = events.subrange(k + 1, j);
    lemma_run_append(m, events.take(k + 1), between);
    assert(events.take(k + 1) + between =~= events.take(j));
    lemma_marks_stay(marked, between, failed);
    let later = run(m, events.take(j));
    lemma_run_wf(m, events.take(j));
    let f = events[j];
    lemma_step_marks(later, f.outcome, f.now, f.jitter, failed);
}

/// Running two sequences one after the other is running their concatenation.
pub proof fn lemma_run_append(m: ExecutionModel, first: Seq<Event>, second: Seq<Event>)
    ensures
        run(m, first + second) == run(run(m, first), second),
    decreases second.len(),
{
    if second.len() == 0 {
        assert(first + second =~= first);
    } else {
        lemma_run_append(m, first, second.drop_last());
        assert((first + second).drop_last() =~= first + second.drop_last());
        assert((first + second).last() == second.last());
    }
}

/// No attempt starts at or after the deadline, and an execution that sees a
/// failure that may pass at or after the deadline ends with the error of the
/// deadline.
pub proof fn lemma_deadline_is_kept(
    m: ExecutionModel,
    outcome: ExecutionOutcome,
    now: u64,
    jitter: u64,
)
    requires
        m.wf(),
        !m.finished,
    ensures
        m.next(outcome, now, jitter).1 is Transmit ==> m.next(outcome, now, jitter).0.started_ms
            < m.policy.max_elapsed_ms,
        m.next(outcome, now, jitter).1 matches Action::Transmit { delay_ms, .. } ==> m.next(
            outcome,
            now,
            jitter,
        ).0.started_ms == m.seen_at(now) + delay_ms,
        outcome.is_retryable() && m.seen_at(now) >= m.policy.max_elapsed_ms ==> m.next(
            outcome,
            now,
            jitter,
        ).1 matches Action::Fail(Error::Timeout { .. }),
        outcome.is_retryable() ==> !(m.next(outcome, now, jitter).1 is Succeed),
{
}

/// An execution never outlasts its deadline by more than the time of one
/// attempt: where every attempt ends within the time allowed for one, the
/// outcome of the latest attempt, and so the end of the execution, is seen
/// before the deadline plus that time.
pub proof fn lemma_end_is_bounded(m: ExecutionModel, now: u64)
    requires
        m.wf(),
        !m.finished,
        now <= m.started_ms + m.policy.attempt_timeout_ms,
    ensures
        m.seen_at(now) < m.policy.max_elapsed_ms + m.policy.attempt_timeout_ms,
{
}

/// How much is left of an execution: the time up to the deadline and the
/// nodes that are not marked.
pub open spec fn remaining(m: ExecutionModel) -> int {
    if m.finished {
        0
    } else {
        (m.policy.max_elapsed_ms - m.started_ms) + unmarked(m.unreachable)
    }
}

/// Every step that does not end the execution leaves less of it: it marks
/// a node, or the next attempt starts later.
pub proof fn lemma_progress(m: ExecutionModel, outcome: ExecutionOutcome, now: u64, jitter: u64)
    requires
        m.wf(),
        !m.finished,
    ensures
        0 <= remaining(m.next(outcome, now, jitter).0) < remaining(m),
{
    lemma_jittered_bounds(m.backoff_ms, jitter);
    lemma_next_wf(m, outcome, now, jitter);
    if outcome is Unreachable {
        lemma_mark_one(m.unreachable, m.current);
    }
}

/// No execution goes on for ever: after as many events as there is left of
/// it at the start, it is over.
pub proof fn lemma_run_ends(m: ExecutionModel, events: Seq<Event>)
    requires
        m.wf(),
        events.len() >= remaining(m),
    ensures
        run(m, events).finished,
{
    lemma_run_shrinks(m, events);
}

/// After `n` events, `n` less is left of an execution, or it is over.
pub proof fn lemma_run_shrinks(m: ExecutionModel, events: Seq<Event>)
    requires
        m.wf(),
    ensures
        run(m, events).finished || 0 <= remaining(run(m, events)) <= remaining(m) - events.len(),
        m.finished ==> run(m, events).finished,
    decreases events.len(),
{
    if events.len() > 0 {
        let e = events.last();
        let before = run(m, events.drop_last());
        lemma_run_shrinks(m, events.drop_last());
        lemma_run_wf(m, events.drop_last());
        if !before.finished {
            lemma_progress(before, e.outcome, e.now, e.jitter);
        }
    }
}

} // verus!
