//! The classification of what one attempt ended in.

use vstd::prelude::*;

verus! {

/// The node took the request.
pub const STATUS_OK: i32 = 0;

/// The node is too busy to take the request.
pub const STATUS_BUSY: i32 = 12;

/// The receipt asked for does not exist yet.
pub const STATUS_RECEIPT_NOT_FOUND: i32 = 18;

/// The record asked for does not exist yet.
pub const STATUS_RECORD_NOT_FOUND: i32 = 19;

/// The outcome of the transaction is not known yet.
pub const STATUS_UNKNOWN: i32 = 21;

/// The transaction reached consensus and took effect.
pub const STATUS_SUCCESS: i32 = 22;

/// The node's platform is not active.
pub const STATUS_PLATFORM_NOT_ACTIVE: i32 = 67;

/// The node's platform could not create the transaction.
pub const STATUS_PLATFORM_TRANSACTION_NOT_CREATED: i32 = 69;

/// Why an attempt failed in a way that may pass.
#[derive(Clone, Copy, Debug, PartialEq, Eq, Structural)]
pub enum TransientKind {
    /// The node is at fault: the next attempt goes to another node.
    NodeLocal(i32),
    /// What was asked for is not there yet: the next attempt goes to the
    /// same node.
    RequestLocal(i32),
}

/// What one attempt ended in.
#[derive(Clone, Copy, Debug, PartialEq, Eq, Structural)]
pub enum ExecutionOutcome {
    /// The node took the request; the handle names its answer.
    Accepted(u64),
    /// The node is too busy.
    NodeBusy,
    /// The attempt failed in a way that may pass.
    TransientFailure(TransientKind),
    /// The network rejected the request for good, with this status.
    TerminalFailure(i32),
    /// The node could not be reached, or did not answer in time.
    Unreachable,
}

/// What the transport reports of one attempt.
#[derive(Clone, Copy, Debug, PartialEq, Eq, Structural)]
pub enum AttemptResult {
    /// The node answered with this status; the handle names its answer.
    Answered { status: i32, handle: u64 },
    /// No connection to the node could be made.
    ConnectFailed,
    /// The node did not answer within the time allowed for one attempt.
    TimedOut,
}

/// The class of a status: the table that decides between another attempt
/// and the end of the execution.
pub open spec fn outcome_of_status(status: i32, handle: u64) -> ExecutionOutcome {
    if status == STATUS_OK {
        ExecutionOutcome::Accepted(handle)
    } else if status == STATUS_BUSY {
        ExecutionOutcome::NodeBusy
    } else if status == STATUS_PLATFORM_NOT_ACTIVE || status
        == STATUS_PLATFORM_TRANSACTION_NOT_CREATED {
        ExecutionOutcome::TransientFailure(TransientKind::NodeLocal(status))
    } else if status == STATUS_RECEIPT_NOT_FOUND || status == STATUS_RECORD_NOT_FOUND || status
        == STATUS_UNKNOWN {
        ExecutionOutcome::TransientFailure(TransientKind::RequestLocal(status))
    } else {
        ExecutionOutcome::TerminalFailure(status)
    }
}

/// The class of what the transport reports: a node that cannot be reached and
/// one that does not answer in time are both unreachable.
pub open spec fn outcome_of(result: AttemptResult) -> ExecutionOutcome {
    match result {
        AttemptResult::Answered { status, handle } => outcome_of_status(status, handle),
        AttemptResult::ConnectFailed => ExecutionOutcome::Unreachable,
        AttemptResult::TimedOut => ExecutionOutcome::Unreachable,
    }
}

/// Classifies what the transport reports of one attempt.
pub fn classify(result: AttemptResult) -> (outcome: ExecutionOutcome)
    ensures
        outcome == outcome_of(result),
{
    match result {
        AttemptResult::Answered { status, handle } => {
            if status == STATUS_OK {
                ExecutionOutcome::Accepted(handle)
            } else if status == STATUS_BUSY {
                ExecutionOutcome::NodeBusy
            } else if status == STATUS_PLATFORM_NOT_ACTIVE || status
                == STATUS_PLATFORM_TRANSACTION_NOT_CREATED {
                ExecutionOutcome::TransientFailure(TransientKind::NodeLocal(status))
            } else if status == STATUS_RECEIPT_NOT_FOUND || status == STATUS_RECORD_NOT_FOUND
                || status == STATUS_UNKNOWN {
                ExecutionOutcome::TransientFailure(TransientKind::RequestLocal(status))
            } else {
                ExecutionOutcome::TerminalFailure(status)
            }
        },
        AttemptResult::ConnectFailed => ExecutionOutcome::Unreachable,
        AttemptResult::TimedOut => ExecutionOutcome::Unreachable,
    }
}

impl ExecutionOutcome {
    /// Whether another attempt may follow this outcome.
    pub open spec fn is_retryable(self) -> bool {
        match self {
            ExecutionOutcome::Accepted(_) => false,
            ExecutionOutcome::TerminalFailure(_) => false,
            _ => true,
        }
    }
}

/// Only the status of acceptance is classified as accepted, and a status is
/// terminal exactly if the table names it neither as accepted nor as one
/// that may pass.
pub proof fn lemma_classification(status: i32, handle: u64)
    ensures
        outcome_of_status(status, handle) is Accepted <==> status == STATUS_OK,
        outcome_of_status(status, handle) is TerminalFailure <==> !(status == STATUS_OK || status
            == STATUS_BUSY || status == STATUS_PLATFORM_NOT_ACTIVE || status
            == STATUS_PLATFORM_TRANSACTION_NOT_CREATED || status == STATUS_RECEIPT_NOT_FOUND
            || status == STATUS_RECORD_NOT_FOUND || status == STATUS_UNKNOWN),
        outcome_of_status(status, handle) matches ExecutionOutcome::TerminalFailure(s) ==> s
            == status,
{
}

} // verus!
