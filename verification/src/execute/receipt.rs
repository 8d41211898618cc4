//! Waiting for the receipt of an accepted transaction.
//!
//! A node that accepts a transaction only passes it on. What became of it
//! is known once the network has agreed on it: then its receipt exists. The
//! poller asks for the receipt at a fixed interval until it shows a final
//! status or the deadline passes. It decides; the caller asks, through an
//! execution of a receipt query, and reports the receipt that came back.

use vstd::prelude::*;
use crate::entity::{AccountId, ContractId, FileId, TransactionId};
use crate::error::{BuildFault, Error, ResponseKind};
use crate::execute::status::{STATUS_RECEIPT_NOT_FOUND, STATUS_SUCCESS, STATUS_UNKNOWN};
use crate::message::{QueryBody, QueryBodyView, QueryHeader, QueryHeaderView, QueryMessage,
    QueryMessageView};
use crate::query::{QueryExecute, QueryMethod, ToQueryProtobuf};

verus! {

/// The outcome of a transaction: its status and what it created, if
/// anything.
#[derive(Clone, Copy, Debug, PartialEq, Eq, Structural)]
pub struct Receipt {
    pub status: i32,
    pub account_id: Option<AccountId>,
    pub file_id: Option<FileId>,
    pub contract_id: Option<ContractId>,
}

/// What a receipt says of its transaction.
#[derive(Clone, Copy, Debug, PartialEq, Eq, Structural)]
pub enum ReceiptClass {
    /// The network has not agreed on the transaction yet.
    Pending,
    /// The transaction took effect.
    Success,
    /// The transaction failed for good.
    KnownFailure,
}

impl Receipt {
    pub open spec fn class_of(self) -> ReceiptClass {
        if self.status == STATUS_UNKNOWN || self.status == STATUS_RECEIPT_NOT_FOUND {
            ReceiptClass::Pending
        } else if self.status == STATUS_SUCCESS {
            ReceiptClass::Success
        } else {
            ReceiptClass::KnownFailure
        }
    }

    pub fn class(&self) -> (class: ReceiptClass)
        ensures
            class == self.class_of(),
    {
        if self.status == STATUS_UNKNOWN || self.status == STATUS_RECEIPT_NOT_FOUND {
            ReceiptClass::Pending
        } else if self.status == STATUS_SUCCESS {
            ReceiptClass::Success
        } else {
            ReceiptClass::KnownFailure
        }
    }
}

/// The query for the receipt of one transaction.
#[derive(Clone, Copy, Debug)]
pub struct TransactionReceiptQueryData {
    pub transaction_id: Option<TransactionId>,
}

impl ToQueryProtobuf for TransactionReceiptQueryData {
    open spec fn query_message(&self, header: QueryHeaderView) -> QueryMessageView {
        QueryMessageView {
            query: Some(
                QueryBodyView::TransactionGetReceipt {
                    transaction_id: match self.transaction_id {
                        Some(id) => Some(id.wire()),
                        None => None,
                    },
                    header: Some(header),
                },
            ),
        }
    }

    fn to_query_protobuf(&self, header: QueryHeader) -> (msg: QueryMessage) {
        let transaction_id = match &self.transaction_id {
            Some(id) => Some(id.to_protobuf()),
            None => None,
        };
        QueryMessage {
            query: Some(QueryBody::TransactionGetReceipt { transaction_id, header: Some(header) }),
        }
    }
}

impl QueryExecute for TransactionReceiptQueryData {
    open spec fn called_by(&self) -> QueryMethod {
        QueryMethod::GetTransactionReceipts
    }

    fn method(&self) -> (method: QueryMethod) {
        QueryMethod::GetTransactionReceipts
    }

    /// Receipts are free.
    open spec fn payment_required(&self) -> bool {
        false
    }

    fn is_payment_required(&self) -> (required: bool) {
        false
    }

    open spec fn answered_by(&self) -> ResponseKind {
        ResponseKind::TransactionGetReceipt
    }

    fn response_kind(&self) -> (kind: ResponseKind) {
        ResponseKind::TransactionGetReceipt
    }
}

/// Where the wait for a receipt stands.
#[derive(Clone, Copy, Debug, PartialEq, Eq, Structural)]
pub enum PollState {
    Pending,
    Success(Receipt),
    KnownFailure(Receipt),
    Expired,
}

/// What the caller is to do next.
#[derive(Clone, Debug, PartialEq, Eq)]
pub enum PollAction {
    /// Wait for `delay_ms`, then ask for the receipt of `transaction_id`.
    Poll { transaction_id: TransactionId, delay_ms: u64 },
    /// The wait is over: the transaction took effect, with this receipt.
    Done(Receipt),
    /// The wait is over and has failed.
    Failed(Error),
}

/// One wait for a receipt.
#[derive(Clone, Copy, Debug, PartialEq, Eq, Structural)]
pub struct ReceiptPoller {
    transaction_id: TransactionId,
    interval_ms: u64,
    deadline_ms: u64,
    polls: u64,
    started_ms: u64,
    state: PollState,
}

/// The state of a poller as contracts speak of it.
pub struct PollerModel {
    /// The transaction whose receipt is waited for.
    pub transaction_id: TransactionId,
    /// The time between the answer to one poll and the start of the next.
    pub interval_ms: u64,
    /// No poll starts at or after this much time since the wait began.
    pub deadline_ms: u64,
    /// How many polls were started.
    pub polls: u64,
    /// When the latest poll starts, in milliseconds since the wait began.
    pub started_ms: u64,
    pub state: PollState,
}

impl PollerModel {
    pub open spec fn wf(self) -> bool {
        &&& self.interval_ms >= 1
        &&& self.state is Pending ==> self.started_ms < self.deadline_ms
    }

    /// The time at which a receipt reported at `now` is taken to be seen:
    /// not before its poll started.
    pub open spec fn seen_at(self, now: u64) -> u64 {
        if now > self.started_ms {
            now
        } else {
            self.started_ms
        }
    }

    /// What the poller answers while in a state that is final.
    pub open spec fn settled(self) -> PollAction {
        match self.state {
            PollState::Pending => PollAction::Poll {
                transaction_id: self.transaction_id,
                delay_ms: self.interval_ms,
            },
            PollState::Success(receipt) => PollAction::Done(receipt),
            PollState::KnownFailure(receipt) => PollAction::Failed(
                Error::ReceiptStatus { status: receipt.status, transaction_id: self.transaction_id },
            ),
            PollState::Expired => PollAction::Failed(
                Error::ReceiptUnavailable { transaction_id: self.transaction_id },
            ),
        }
    }

    /// The state after a receipt, and what the caller is to do next.
    ///
    /// A poller in a final state stays in it and repeats its answer. A
    /// pending poller ends with a receipt that shows success or a failure
    /// for good; a receipt that is itself pending is answered with another
    /// poll after the interval, unless that poll would start at or after the
    /// deadline: then the wait ends as expired.
    pub open spec fn next(self, receipt: Receipt, now: u64) -> (PollerModel, PollAction) {
        let seen = self.seen_at(now);
        if !(self.state is Pending) {
            (self, self.settled())
        } else {
            match receipt.class_of() {
                ReceiptClass::Success => {
                    let after = PollerModel { state: PollState::Success(receipt), ..self };
                    (after, after.settled())
                },
                ReceiptClass::KnownFailure => {
                    let after = PollerModel { state: PollState::KnownFailure(receipt), ..self };
                    (after, after.settled())
                },
                ReceiptClass::Pending => {
                    if seen + self.interval_ms >= self.deadline_ms {
                        let after = PollerModel { state: PollState::Expired, ..self };
                        (after, after.settled())
                    } else {
                        let after = PollerModel {
                            polls: if self.polls < u64::MAX {
                                (self.polls + 1) as u64
                            } else {
                                self.polls
                            },
                            started_ms: (seen + self.interval_ms) as u64,
                            ..self
                        };
                        (after, after.settled())
                    }
                },
            }
        }
    }
}

/// The state in which a wait begins and its first action, or why it cannot
/// begin: the first poll starts at once.
pub open spec fn begin_polling(transaction_id: TransactionId, interval_ms: u64, deadline_ms: u64)
    -> Result<(PollerModel, PollAction), Error> {
    if interval_ms == 0 || deadline_ms == 0 {
        Err(Error::Build { fault: BuildFault::InvalidPolicy, transaction_id: Some(transaction_id) })
    } else {
        Ok(
            (
                PollerModel {
                    transaction_id,
                    interval_ms,
                    deadline_ms,
                    polls: 1,
                    started_ms: 0,
                    state: PollState::Pending,
                },
                PollAction::Poll { transaction_id, delay_ms: 0 },
            ),
        )
    }
}

impl View for ReceiptPoller {
    type V = PollerModel;

    closed spec fn view(&self) -> PollerModel {
        PollerModel {
            transaction_id: self.transaction_id,
            interval_ms: self.interval_ms,
            deadline_ms: self.deadline_ms,
            polls: self.polls,
            started_ms: self.started_ms,
            state: self.state,
        }
    }
}

impl ReceiptPoller {
    /// Begins the wait for the receipt of an accepted transaction.
    pub fn start(transaction_id: TransactionId, interval_ms: u64, deadline_ms: u64) -> (res:
        Result<(ReceiptPoller, PollAction), Error>)
        ensures
            match begin_polling(transaction_id, interval_ms, deadline_ms) {
                Ok((model, first)) => res matches Ok((poller, action)) && poller@ == model
                    && action == first && poller@.wf(),
                Err(e) => res matches Err(err) && err == e,
            },
    {
        if interval_ms == 0 || deadline_ms == 0 {
            return Err(
                Error::Build {
                    fault: BuildFault::InvalidPolicy,
                    transaction_id: Some(transaction_id),
                },
            );
        }
        let poller = ReceiptPoller {
            transaction_id,
            interval_ms,
            deadline_ms,
            polls: 1,
            started_ms: 0,
            state: PollState::Pending,
        };
        Ok((poller, PollAction::Poll { transaction_id, delay_ms: 0 }))
    }

    /// Where the wait stands.
    pub fn state(&self) -> (state: PollState)
        ensures
            state == self@.state,
    {
        self.state
    }

    /// How many polls were started.
    pub fn polls(&self) -> (polls: u64)
        ensures
            polls == self@.polls,
    {
        self.polls
    }

    /// The transaction whose receipt is waited for.
    pub fn transaction_id(&self) -> (id: TransactionId)
        ensures
            id == self@.transaction_id,
    {
        self.transaction_id
    }

    fn settled(&self) -> (action: PollAction)
        ensures
            action == self@.settled(),
    {
        match self.state {
            PollState::Pending => PollAction::Poll {
                transaction_id: self.transaction_id,
                delay_ms: self.interval_ms,
            },
            PollState::Success(receipt) => PollAction::Done(receipt),
            PollState::KnownFailure(receipt) => PollAction::Failed(
                Error::ReceiptStatus { status: receipt.status, transaction_id: self.transaction_id },
            ),
            PollState::Expired => PollAction::Failed(
                Error::ReceiptUnavailable { transaction_id: self.transaction_id },
            ),
        }
    }

    /// Takes the receipt that the latest poll brought and decides what
    /// follows. `now` is the time since the wait began, in milliseconds, at
    /// which the caller saw the receipt.
    pub fn on_receipt(&mut self, receipt: Receipt, now: u64) -> (action: PollAction)
        ensures
            (final(self)@, action) == old(self)@.next(receipt, now),
            old(self)@.wf() ==> final(self)@.wf(),
    {
        match self.state {
            PollState::Pending => {},
            _ => {
                return self.settled();
            },
        }
        let seen = if now > self.started_ms {
            now
        } else {
            self.started_ms
        };
        match receipt.class() {
            ReceiptClass::Success => {
                self.state = PollState::Success(receipt);
            },
            ReceiptClass::KnownFailure => {
                self.state = PollState::KnownFailure(receipt);
            },
            ReceiptClass::Pending => {
                if seen >= self.deadline_ms || self.interval_ms >= self.deadline_ms - seen {
                    self.state = PollState::Expired;
                } else {
                    if self.polls < u64::MAX {
                        self.polls = self.polls + 1;
                    }
                    self.started_ms = seen + self.interval_ms;
                }
            },
        }
        self.settled()
    }
}

/// What the caller reports of one poll: the receipt and the time at which
/// the caller saw it.
pub struct PollEvent {
    pub receipt: Receipt,
    pub now: u64,
}

/// The state after a sequence of receipts.
pub open spec fn poll_run(m: PollerModel, events: Seq<PollEvent>) -> PollerModel
    decreases events.len(),
{
    if events.len() == 0 {
        m
    } else {
        let e = events.last();
        poll_run(m, events.drop_last()).next(e.receipt, e.now).0
    }
}

/// Every step keeps the state well formed, asks only for the receipt of
/// the transaction that the wait began with, and names that transaction in
/// every failure.
pub proof fn lemma_poll_step(m: PollerModel, receipt: Receipt, now: u64)
    requires
        m.wf(),
    ensures
        m.next(receipt, now).0.wf(),
        m.next(receipt, now).0.transaction_id == m.transaction_id,
        m.next(receipt, now).0.interval_ms == m.interval_ms,
        m.next(receipt, now).0.deadline_ms == m.deadline_ms,
        m.next(receipt, now).1 matches PollAction::Poll { transaction_id, .. } ==> transaction_id
            == m.transaction_id,
        m.next(receipt, now).1 matches PollAction::Failed(e) ==> (e == Error::ReceiptUnavailable {
            transaction_id: m.transaction_id,
        } || exists|status: i32|
            e == (Error::ReceiptStatus { status, transaction_id: m.transaction_id })),
        m.next(receipt, now).1 is Poll <==> m.next(receipt, now).0.state is Pending,
{
    let after = m.next(receipt, now).0;
    if let PollAction::Failed(e) = m.next(receipt, now).1 {
        match after.state {
            PollState::KnownFailure(r) => {
                assert(e == (Error::ReceiptStatus {
                    status: r.status,
                    transaction_id: m.transaction_id,
                }));
            },
            _ => {},
        }
    }
}

/// A wait that is over stays over: whatever is reported next, the poller
/// asks for no further poll, keeps its state and repeats its answer.
pub proof fn lemma_poller_stops(m: PollerModel, receipt: Receipt, now: u64)
    requires
        !(m.state is Pending),
    ensures
        m.next(receipt, now).0 == m,
        !(m.next(receipt, now).1 is Poll),
        m.next(receipt, now).1 == m.settled(),
{
}

/// While receipts are pending and the deadline allows another poll, each
/// receipt is answered with exactly one more poll; the first receipt that
/// shows success ends the wait with that receipt, and no poll follows it.
pub proof fn lemma_pending_then_success(
    m: PollerModel,
    pending: Seq<PollEvent>,
    last: PollEvent,
    later: PollEvent,
)
    requires
        m.wf(),
        m.state is Pending,
        m.polls + pending.len() <= u64::MAX,
        forall|i: int| 0 <= i < pending.len() ==> (#[trigger] pending[i]).receipt.class_of()
            is Pending,
        !(poll_run(m, pending).state is Expired),
        last.receipt.class_of() is Success,
    ensures
        poll_run(m, pending).state is Pending,
        poll_run(m, pending).polls == m.polls + pending.len(),
        poll_run(m, pending).next(last.receipt, last.now).1 == PollAction::Done(last.receipt),
        poll_run(m, pending).next(last.receipt, last.now).0.polls == m.polls + pending.len(),
        poll_run(m, pending.push(last)).next(later.receipt, later.now).1 == PollAction::Done(
            last.receipt,
        ),
        poll_run(m, pending.push(last)).next(later.receipt, later.now).0.polls == m.polls
            + pending.len(),
{
    lemma_pending_run(m, pending);
    assert(pending.push(last).drop_last() =~= pending);
}

/// A run of pending receipts that does not expire stays pending, and has
/// started one poll for each receipt.
pub proof fn lemma_pending_run(m: PollerModel, pending: Seq<PollEvent>)
    requires
        m.wf(),
        m.state is Pending,
        m.polls + pending.len() <= u64::MAX,
        forall|i: int| 0 <= i < pending.len() ==> (#[trigger] pending[i]).receipt.class_of()
            is Pending,
        !(poll_run(m, pending).state is Expired),
    ensures
        poll_run(m, pending).wf(),
        poll_run(m, pending).state is Pending,
        poll_run(m, pending).polls == m.polls + pending.len(),
        poll_run(m, pending).transaction_id == m.transaction_id,
    decreases pending.len(),
{
    if pending.len() > 0 {
        let e = pending.last();
        let before = poll_run(m, pending.drop_last());
        assert(e.receipt.class_of() is Pending);
        if before.state is Expired {
            lemma_poller_stops(before, e.receipt, e.now);
        }
        assert forall|i: int| 0 <= i < pending.drop_last().len() implies (
        #[trigger] pending.drop_last()[i]).receipt.class_of() is Pending by {
            assert(pending.drop_last()[i] == pending[i]);
        }
        lemma_pending_run(m, pending.drop_last());
        lemma_poll_step(before, e.receipt, e.now);
    }
}

/// How much is left of a wait: the time up to the deadline.
pub open spec fn poll_remaining(m: PollerModel) -> int {
    if m.state is Pending {
        m.deadline_ms - m.started_ms
    } else {
        0
    }
}

/// Every poll that the poller asks for starts before the deadline, and
/// later than the one before: no wait goes on for ever.
pub proof fn lemma_poll_progress(m: PollerModel, receipt: Receipt, now: u64)
    requires
        m.wf(),
        m.state is Pending,
    ensures
        0 <= poll_remaining(m.next(receipt, now).0) < poll_remaining(m),
        m.next(receipt, now).1 is Poll ==> m.next(receipt, now).0.started_ms < m.deadline_ms,
{
}

} // verus!
