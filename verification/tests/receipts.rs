use hedera::entity::{AccountId, Timestamp, TransactionId};
use hedera::error::{BuildFault, Error};
use hedera::execute::receipt::{
    PollAction, PollState, Receipt, ReceiptClass, ReceiptPoller, TransactionReceiptQueryData,
};
use hedera::message::{QueryBody, QueryHeader, QueryMessage, ResponseType};
use hedera::query::{Query, QueryExecute, ToQueryProtobuf};
use hedera::wire::{WireAccount, WireAccountId, WireTimestamp, WireTransactionId};

fn tx_id() -> TransactionId {
    TransactionId {
        account_id: AccountId { shard: 0, realm: 0, num: 1001 },
        valid_start: Timestamp { seconds: 10, nanos: 5 },
    }
}

fn receipt(status: i32) -> Receipt {
    Receipt { status, account_id: None, file_id: None, contract_id: None }
}

fn created() -> Receipt {
    Receipt {
        status: 22,
        account_id: Some(AccountId { shard: 0, realm: 0, num: 4242 }),
        file_id: None,
        contract_id: None,
    }
}

fn poll(delay_ms: u64) -> PollAction {
    PollAction::Poll { transaction_id: tx_id(), delay_ms }
}

#[test]
fn receipt_classes() {
    assert_eq!(receipt(21).class(), ReceiptClass::Pending);
    assert_eq!(receipt(18).class(), ReceiptClass::Pending);
    assert_eq!(receipt(22).class(), ReceiptClass::Success);
    assert_eq!(receipt(0).class(), ReceiptClass::KnownFailure);
    assert_eq!(receipt(10).class(), ReceiptClass::KnownFailure);
    assert_eq!(receipt(12).class(), ReceiptClass::KnownFailure);
    assert_eq!(receipt(-3).class(), ReceiptClass::KnownFailure);
}

#[test]
fn start_refuses_an_interval_or_deadline_of_zero() {
    assert_eq!(
        ReceiptPoller::start(tx_id(), 0, 1000).err(),
        Some(Error::Build { fault: BuildFault::InvalidPolicy, transaction_id: Some(tx_id()) })
    );
    assert_eq!(
        ReceiptPoller::start(tx_id(), 500, 0).err(),
        Some(Error::Build { fault: BuildFault::InvalidPolicy, transaction_id: Some(tx_id()) })
    );
}

#[test]
fn first_poll_starts_at_once() {
    let (poller, action) = ReceiptPoller::start(tx_id(), 500, 10_000).unwrap();
    assert_eq!(action, poll(0));
    assert_eq!(poller.polls(), 1);
    assert_eq!(poller.state(), PollState::Pending);
    assert_eq!(poller.transaction_id(), tx_id());
}

#[test]
fn pending_pending_success_takes_three_polls() {
    let (mut poller, first) = ReceiptPoller::start(tx_id(), 500, 10_000).unwrap();
    assert_eq!(first, poll(0));
    assert_eq!(poller.on_receipt(receipt(21), 100), poll(500));
    assert_eq!(poller.polls(), 2);
    assert_eq!(poller.on_receipt(receipt(18), 700), poll(500));
    assert_eq!(poller.polls(), 3);
    assert_eq!(poller.on_receipt(created(), 1300), PollAction::Done(created()));
    assert_eq!(poller.polls(), 3);
    assert_eq!(poller.state(), PollState::Success(created()));
    // whatever is reported afterwards, no poll follows
    assert_eq!(poller.on_receipt(receipt(21), 1900), PollAction::Done(created()));
    assert_eq!(poller.on_receipt(receipt(10), 2500), PollAction::Done(created()));
    assert_eq!(poller.polls(), 3);
    assert_eq!(poller.state(), PollState::Success(created()));
}

#[test]
fn known_failure_ends_the_wait_with_its_status() {
    let (mut poller, _) = ReceiptPoller::start(tx_id(), 500, 10_000).unwrap();
    assert_eq!(poller.on_receipt(receipt(21), 100), poll(500));
    let failed = Error::ReceiptStatus { status: 28, transaction_id: tx_id() };
    assert_eq!(poller.on_receipt(receipt(28), 700), PollAction::Failed(failed.clone()));
    assert_eq!(poller.state(), PollState::KnownFailure(receipt(28)));
    assert_eq!(poller.polls(), 2);
    assert_eq!(poller.on_receipt(created(), 1300), PollAction::Failed(failed));
    assert_eq!(poller.polls(), 2);
}

#[test]
fn deadline_while_pending_is_receipt_unavailable() {
    let (mut poller, _) = ReceiptPoller::start(tx_id(), 500, 1000).unwrap();
    assert_eq!(poller.on_receipt(receipt(21), 100), poll(500));
    let expired = Error::ReceiptUnavailable { transaction_id: tx_id() };
    assert_eq!(poller.on_receipt(receipt(21), 700), PollAction::Failed(expired.clone()));
    assert_eq!(poller.state(), PollState::Expired);
    assert_eq!(poller.polls(), 2);
    assert_ne!(expired, Error::ReceiptStatus { status: 21, transaction_id: tx_id() });
    // a success that comes after the wait has ended does not revive it
    assert_eq!(poller.on_receipt(created(), 800), PollAction::Failed(expired));
}

#[test]
fn no_poll_starts_at_the_deadline() {
    let (mut poller, _) = ReceiptPoller::start(tx_id(), 500, 1000).unwrap();
    assert_eq!(poller.on_receipt(receipt(21), 499), poll(500));
    let (mut poller, _) = ReceiptPoller::start(tx_id(), 500, 1000).unwrap();
    assert_eq!(
        poller.on_receipt(receipt(21), 500),
        PollAction::Failed(Error::ReceiptUnavailable { transaction_id: tx_id() })
    );
}

#[test]
fn a_success_after_the_deadline_is_still_a_success() {
    let (mut poller, _) = ReceiptPoller::start(tx_id(), 500, 1000).unwrap();
    assert_eq!(poller.on_receipt(created(), 5000), PollAction::Done(created()));
}

#[test]
fn polls_follow_each_other_at_the_interval() {
    let (mut poller, _) = ReceiptPoller::start(tx_id(), 200, 1000).unwrap();
    // each receipt is reported at time 0: the poller takes it as seen when its poll started
    assert_eq!(poller.on_receipt(receipt(21), 0), poll(200));
    assert_eq!(poller.on_receipt(receipt(21), 0), poll(200));
    assert_eq!(poller.on_receipt(receipt(21), 0), poll(200));
    assert_eq!(poller.on_receipt(receipt(21), 0), poll(200));
    assert_eq!(poller.polls(), 5);
    assert_eq!(
        poller.on_receipt(receipt(21), 0),
        PollAction::Failed(Error::ReceiptUnavailable { transaction_id: tx_id() })
    );
}

#[test]
fn receipt_query_renders_the_identifier_and_is_free() {
    assert!(!TransactionReceiptQueryData { transaction_id: None }.is_payment_required());
    let query = Query::with_data(TransactionReceiptQueryData { transaction_id: Some(tx_id()) });
    let header = QueryHeader { payment: None, response_type: ResponseType::AnswerOnly };
    let expected = QueryMessage {
        query: Some(QueryBody::TransactionGetReceipt {
            transaction_id: Some(WireTransactionId {
                account_id: Some(WireAccountId {
                    shard_num: 0,
                    realm_num: 0,
                    account: Some(WireAccount::AccountNum(1001)),
                }),
                transaction_valid_start: Some(WireTimestamp { seconds: 10, nanos: 5 }),
            }),
            header: Some(header.clone()),
        }),
    };
    assert_eq!(query.render(), Ok(expected.clone()));
    assert_eq!(query.data.to_query_protobuf(header), expected);
}
