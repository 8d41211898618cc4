//! The retry state machine of one execution.
//!
//! An execution sends one request until a node accepts it, the network
//! rejects it for good, or the deadline passes. This module decides; it
//! sends nothing. The caller performs each `Action` and reports what the
//! attempt ended in, with the time at which it saw that.
//!
//! All retry state lives in the `Execution` value of the one call. Attempts
//! of one execution follow each other; none runs beside another.

use vstd::prelude::*;
use crate::entity::{AccountId, TransactionId};
use crate::error::{AttemptFault, BuildFault, Error};
use crate::execute::backoff::{grown, jittered, jittered_delay, lemma_jittered_bounds, next_backoff,
    RetryPolicy};
use crate::execute::nodes::{distinct, distinct_nodes, find_next_reachable, lemma_distinct,
    next_reachable};
use crate::execute::status::{ExecutionOutcome, TransientKind};

verus! {

/// What the caller is to do next.
#[derive(Clone, Debug, PartialEq, Eq)]
pub enum Action {
    /// Wait for `delay_ms`, then send the request to `node`, rendered under
    /// `transaction_id` where the request is a transaction.
    Transmit { node: AccountId, delay_ms: u64, transaction_id: Option<TransactionId> },
    /// The execution is over: `node` accepted the request, and `handle` names
    /// its answer.
    Succeed { handle: u64, node: AccountId },
    /// The execution is over and has failed.
    Fail(Error),
}

/// The state of an execution as contracts speak of it.
pub struct ExecutionModel {
    pub policy: RetryPolicy,
    /// The eligible nodes, each once, in the order in which they are tried.
    pub nodes: Seq<AccountId>,
    /// For each node, whether an attempt of this execution found it
    /// unreachable.
    pub unreachable: Seq<bool>,
    /// The position of the node of the latest attempt.
    pub current: int,
    /// How many attempts were started.
    pub attempts: u64,
    /// The identifier that every attempt is sent under; `None` for a query.
    pub transaction_id: Option<TransactionId>,
    /// The backoff that the next load-related failure is answered with.
    pub backoff_ms: u64,
    /// When the latest attempt starts, in milliseconds since the execution
    /// began.
    pub started_ms: u64,
    /// Whether the execution is over.
    pub finished: bool,
}

impl ExecutionModel {
    pub open spec fn wf(self) -> bool {
        &&& self.policy.wf()
        &&& self.nodes.len() > 0
        &&& self.nodes.no_duplicates()
        &&& self.unreachable.len() == self.nodes.len()
        &&& 0 <= self.current < self.nodes.len()
        &&& self.policy.initial_backoff_ms <= self.backoff_ms <= self.policy.max_backoff_ms
        &&& !self.finished ==> !self.unreachable[self.current] && self.started_ms
            < self.policy.max_elapsed_ms
    }

    /// The node of the latest attempt.
    pub open spec fn node(self) -> AccountId {
        self.nodes[self.current]
    }

    /// Whether an attempt of this execution found the node unreachable.
    pub open spec fn is_unreachable(self, node: AccountId) -> bool {
        exists|i: int|
            #![trigger self.nodes[i]]
            0 <= i < self.nodes.len() && self.nodes[i] == node && self.unreachable[i]
    }

    /// The time at which an outcome reported at `now` is taken to be seen:
    /// not before its attempt started.
    pub open spec fn seen_at(self, now: u64) -> u64 {
        if now > self.started_ms {
            now
        } else {
            self.started_ms
        }
    }

    /// The end of the execution with the error of the deadline.
    pub open spec fn timed_out(self, fault: AttemptFault) -> (ExecutionModel, Action) {
        (
            ExecutionModel { finished: true, ..self },
            Action::Fail(
                Error::Timeout {
                    last: Some(fault),
                    node: self.node(),
                    transaction_id: self.transaction_id,
                },
            ),
        )
    }

    /// What follows a failure that may pass: another attempt, at the node at
    /// `target` and after `delay` milliseconds, if there is such a node and
    /// the attempt starts before the deadline; else the end of the execution.
    pub open spec fn retry(
        self,
        target: Option<int>,
        fault: AttemptFault,
        seen: u64,
        delay: u64,
        backoff: u64,
    ) -> (ExecutionModel, Action) {
        match target {
            None => self.timed_out(fault),
            Some(i) => {
                if seen + delay >= self.policy.max_elapsed_ms {
                    self.timed_out(fault)
                } else {
                    (
                        ExecutionModel {
                            current: i,
                            attempts: if self.attempts < u64::MAX {
                                (self.attempts + 1) as u64
                            } else {
                                self.attempts
                            },
                            started_ms: (seen + delay) as u64,
                            backoff_ms: backoff,
                            ..self
                        },
                        Action::Transmit {
                            node: self.nodes[i],
                            delay_ms: delay,
                            transaction_id: self.transaction_id,
                        },
                    )
                }
            },
        }
    }

    /// The state after an outcome, and what the caller is to do next.
    ///
    /// - Accepted: the execution succeeds.
    /// - Rejected for good: the execution fails with that status.
    /// - Unreachable: the node is marked and never tried again; the next
    ///   node that is not marked is tried at once.
    /// - Busy, or failed through a fault of the node: the next node that is
    ///   not marked is tried after a jittered backoff, and the backoff grows.
    /// - What was asked for is not there yet: the same node is tried again
    ///   after a jittered backoff, and the backoff grows.
    ///
    /// No attempt starts at or after the deadline, and none where every node
    /// is marked: the execution then fails with the error of the deadline,
    /// which holds the failure of the last attempt.
    pub open spec fn next(self, outcome: ExecutionOutcome, now: u64, jitter: u64) -> (
        ExecutionModel,
        Action,
    ) {
        let seen = self.seen_at(now);
        let delay = jittered(self.backoff_ms, jitter);
        let backoff = grown(self.backoff_ms, self.policy.max_backoff_ms);
        if self.finished {
            (self, Action::Fail(Error::InvalidState("execution is finished")))
        } else {
            match outcome {
                ExecutionOutcome::Accepted(handle) => (
                    ExecutionModel { finished: true, ..self },
                    Action::Succeed { handle, node: self.node() },
                ),
                ExecutionOutcome::TerminalFailure(status) => (
                    ExecutionModel { finished: true, ..self },
                    Action::Fail(
                        Error::TerminalStatus {
                            status,
                            node: self.node(),
                            transaction_id: self.transaction_id,
                        },
                    ),
                ),
                ExecutionOutcome::Unreachable => {
                    let marks = self.unreachable.update(self.current, true);
                    (ExecutionModel { unreachable: marks, ..self }).retry(
                        next_reachable(marks, self.current),
                        AttemptFault::Unreachable,
                        seen,
                        0,
                        self.backoff_ms,
                    )
                },
                ExecutionOutcome::NodeBusy => self.retry(
                    next_reachable(self.unreachable, self.current),
                    AttemptFault::Busy,
                    seen,
                    delay,
                    backoff,
                ),
                ExecutionOutcome::TransientFailure(TransientKind::NodeLocal(status)) => self.retry(
                    next_reachable(self.unreachable, self.current),
                    AttemptFault::Transient(status),
                    seen,
                    delay,
                    backoff,
                ),
                ExecutionOutcome::TransientFailure(TransientKind::RequestLocal(status)) => {
                    self.retry(
                        Some(self.current),
                        AttemptFault::Transient(status),
                        seen,
                        delay,
                        backoff,
                    )
                },
            }
        }
    }
}

/// The state in which an execution begins and its first action, or why it
/// cannot begin: the first attempt goes to the first eligible node, at once.
pub open spec fn begin(
    policy: RetryPolicy,
    nodes: Seq<AccountId>,
    transaction_id: Option<TransactionId>,
) -> Result<(ExecutionModel, Action), Error> {
    if !policy.wf() {
        Err(Error::Build { fault: BuildFault::InvalidPolicy, transaction_id })
    } else if nodes.len() == 0 {
        Err(Error::Build { fault: BuildFault::NoNodes, transaction_id })
    } else {
        Ok(
            (
                ExecutionModel {
                    policy,
                    nodes: distinct(nodes),
                    unreachable: Seq::new(distinct(nodes).len(), |i: int| false),
                    current: 0,
                    attempts: 1,
                    transaction_id,
                    backoff_ms: policy.initial_backoff_ms,
                    started_ms: 0,
                    finished: false,
                },
                Action::Transmit { node: nodes[0], delay_ms: 0, transaction_id },
            ),
        )
    }
}

/// One execution.
#[derive(Debug)]
pub struct Execution {
    policy: RetryPolicy,
    nodes: Vec<AccountId>,
    unreachable: Vec<bool>,
    current: usize,
    attempts: u64,
    transaction_id: Option<TransactionId>,
    backoff_ms: u64,
    started_ms: u64,
    finished: bool,
}

impl View for Execution {
    type V = ExecutionModel;

    closed spec fn view(&self) -> ExecutionModel {
        ExecutionModel {
            policy: self.policy,
            nodes: self.nodes@,
            unreachable: self.unreachable@,
            current: self.current as int,
            attempts: self.attempts,
            transaction_id: self.transaction_id,
            backoff_ms: self.backoff_ms,
            started_ms: self.started_ms,
            finished: self.finished,
        }
    }
}

impl Execution {
    #[verifier::type_invariant]
    spec fn shaped(self) -> bool {
        &&& self.nodes@.len() > 0
        &&& self.unreachable@.len() == self.nodes@.len()
        &&& self.current < self.nodes@.len()
    }

    /// Begins an execution over the nodes of `nodes`, in that order and each
    /// once, under `policy`. A transaction brings the identifier that was
    /// chosen for it; every attempt is sent under that one.
    pub fn start(
        policy: RetryPolicy,
        nodes: &Vec<AccountId>,
        transaction_id: Option<TransactionId>,
    ) -> (res: Result<(Execution, Action), Error>)
        ensures
            match begin(policy, nodes@, transaction_id) {
                Ok((model, first)) => res matches Ok((execution, action)) && execution@ == model
                    && action == first && execution@.wf(),
                Err(e) => res matches Err(err) && err == e,
            },
    {
        if !policy.is_valid() {
            return Err(Error::Build { fault: BuildFault::InvalidPolicy, transaction_id });
        }
        if nodes.len() == 0 {
            return Err(Error::Build { fault: BuildFault::NoNodes, transaction_id });
        }
        let eligible = distinct_nodes(nodes);
        proof {
            lemma_distinct(nodes@);
        }
        let mut unreachable: Vec<bool> = Vec::new();
        let mut i: usize = 0;
        while i < eligible.len()
            invariant
                i <= eligible.len(),
                unreachable@.len() == i,
                forall|j: int| 0 <= j < i ==> !unreachable@[j],
            decreases eligible.len() - i,
        {
            unreachable.push(false);
            i = i + 1;
        }
        assert(unreachable@ =~= Seq::new(eligible@.len(), |i: int| false));
        let first = eligible[0];
        let execution = Execution {
            policy,
            nodes: eligible,
            unreachable,
            current: 0,
            attempts: 1,
            transaction_id,
            backoff_ms: policy.initial_backoff_ms,
            started_ms: 0,
            finished: false,
        };
        Ok((execution, Action::Transmit { node: first, delay_ms: 0, transaction_id }))
    }

    /// Whether the execution is over.
    pub fn is_finished(&self) -> (finished: bool)
        ensures
            finished == self@.finished,
    {
        self.finished
    }

    /// How many attempts were started.
    pub fn attempts(&self) -> (attempts: u64)
        ensures
            attempts == self@.attempts,
    {
        self.attempts
    }

    /// The identifier that every attempt is sent under.
    pub fn transaction_id(&self) -> (id: Option<TransactionId>)
        ensures
            id == self@.transaction_id,
    {
        self.transaction_id
    }

    /// The node of the latest attempt.
    pub fn current_node(&self) -> (node: AccountId)
        ensures
            node == self@.node(),
    {
        proof {
            use_type_invariant(self);
        }
        self.nodes[self.current]
    }

    /// Whether an attempt of this execution found the node unreachable.
    pub fn is_marked_unreachable(&self, node: AccountId) -> (marked: bool)
        ensures
            marked == self@.is_unreachable(node),
    {
        proof {
            use_type_invariant(self);
        }
        let mut i: usize = 0;
        while i < self.nodes.len()
            invariant
                i <= self.nodes.len(),
                self.unreachable.len() == self.nodes.len(),
                forall|j: int| 0 <= j < i ==> !(self.nodes@[j] == node && self.unreachable@[j]),
            decreases self.nodes.len() - i,
        {
            if self.nodes[i] == node && self.unreachable[i] {
                assert(self@.nodes[i as int] == node && self@.unreachable[i as int]);
                return true;
            }
            i = i + 1;
        }
        false
    }

    fn finish_timed_out(&mut self, fault: AttemptFault) -> (action: Action)
        ensures
            (final(self)@, action) == old(self)@.timed_out(fault),
    {
        proof {
            use_type_invariant(&*self);
        }
        self.finished = true;
        Action::Fail(
            Error::Timeout {
                last: Some(fault),
                node: self.nodes[self.current],
                transaction_id: self.transaction_id,
            },
        )
    }

    fn retry(
        &mut self,
        target: Option<usize>,
        fault: AttemptFault,
        seen: u64,
        delay: u64,
        backoff: u64,
    ) -> (action: Action)
        requires
            target matches Some(i) ==> i < old(self).nodes.len(),
        ensures
            (final(self)@, action) == old(self)@.retry(
                match target {
                    Some(i) => Some(i as int),
                    None => None,
                },
                fault,
                seen,
                delay,
                backoff,
            ),
    {
        proof {
            use_type_invariant(&*self);
        }
        match target {
            None => self.finish_timed_out(fault),
            Some(i) => {
                let deadline = self.policy.max_elapsed_ms;
                if seen >= deadline || delay >= deadline - seen {
                    self.finish_timed_out(fault)
                } else {
                    self.current = i;
                    if self.attempts < u64::MAX {
                        self.attempts = self.attempts + 1;
                    }
                    self.started_ms = seen + delay;
                    self.backoff_ms = backoff;
                    Action::Transmit {
                        node: self.nodes[i],
                        delay_ms: delay,
                        transaction_id: self.transaction_id,
                    }
                }
            },
        }
    }

    /// Takes what the latest attempt ended in and decides what follows.
    ///
    /// `now` is the time since the execution began, in milliseconds, at which
    /// the caller saw the outcome. `jitter` is a random number; it spreads
    /// the delay between half the backoff and the whole of it.
    pub fn on_outcome(&mut self, outcome: ExecutionOutcome, now: u64, jitter: u64) -> (action:
        Action)
        ensures
            (final(self)@, action) == old(self)@.next(outcome, now, jitter),
            old(self)@.wf() ==> final(self)@.wf(),
    {
        proof {
            use_type_invariant(&*self);
            if self@.wf() {
                lemma_next_wf(self@, outcome, now, jitter);
            }
        }
        if self.finished {
            return Action::Fail(Error::InvalidState("execution is finished"));
        }
        let seen = if now > self.started_ms {
            now
        } else {
            self.started_ms
        };
        let node = self.nodes[self.current];
        match outcome {
            ExecutionOutcome::Accepted(handle) => {
                self.finished = true;
                Action::Succeed { handle, node }
            },
            ExecutionOutcome::TerminalFailure(status) => {
                self.finished = true;
                Action::Fail(
                    Error::TerminalStatus { status, node, transaction_id: self.transaction_id },
                )
            },
            ExecutionOutcome::Unreachable => {
                self.unreachable[self.current] = true;
                let target = find_next_reachable(&self.unreachable, self.current);
                let backoff = self.backoff_ms;
                self.retry(target, AttemptFault::Unreachable, seen, 0, backoff)
            },
            ExecutionOutcome::NodeBusy => {
                let target = find_next_reachable(&self.unreachable, self.current);
                let delay = jittered_delay(self.backoff_ms, jitter);
                let backoff = next_backoff(self.backoff_ms, self.policy.max_backoff_ms);
                self.retry(target, AttemptFault::Busy, seen, delay, backoff)
            },
            ExecutionOutcome::TransientFailure(TransientKind::NodeLocal(status)) => {
                let target = find_next_reachable(&self.unreachable, self.current);
                let delay = jittered_delay(self.backoff_ms, jitter);
                let backoff = next_backoff(self.backoff_ms, self.policy.max_backoff_ms);
                self.retry(target, AttemptFault::Transient(status), seen, delay, backoff)
            },
            ExecutionOutcome::TransientFailure(TransientKind::RequestLocal(status)) => {
                let target = Some(self.current);
                let delay = jittered_delay(self.backoff_ms, jitter);
                let backoff = next_backoff(self.backoff_ms, self.policy.max_backoff_ms);
                self.retry(target, AttemptFault::Transient(status), seen, delay, backoff)
            },
        }
    }
}

/// Every step keeps the state well formed.
pub proof fn lemma_next_wf(m: ExecutionModel, outcome: ExecutionOutcome, now: u64, jitter: u64)
    requires
        m.wf(),
    ensures
        m.next(outcome, now, jitter).0.wf(),
{
    lemma_jittered_bounds(m.backoff_ms, jitter);
    if !m.finished {
        match outcome {
            ExecutionOutcome::Unreachable => {
                let marks = m.unreachable.update(m.current, true);
                crate::execute::nodes::lemma_next_reachable(marks, m.current);
            },
            ExecutionOutcome::NodeBusy => {
                crate::execute::nodes::lemma_next_reachable(m.unreachable, m.current);
            },
            ExecutionOutcome::TransientFailure(TransientKind::NodeLocal(_)) => {
                crate::execute::nodes::lemma_next_reachable(m.unreachable, m.current);
            },
            _ => {},
        }
    }
}

} // verus!
