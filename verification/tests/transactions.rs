use hedera::account::account_create_transaction::{
    AccountCreateTransaction, AccountCreateTransactionData,
};
use hedera::account::account_delete_transaction::{
    AccountDeleteTransaction, AccountDeleteTransactionData,
};
use hedera::account::account_update_transaction::{
    AccountUpdateTransaction, AccountUpdateTransactionData,
};
use hedera::entity::{AccountId, Timestamp, TransactionId, ValidDuration};
use hedera::error::{BuildFault, Error};
use hedera::message::{
    AccountAmount, CryptoCreateBody, CryptoDeleteBody, CryptoTransferBody, CryptoUpdateBody,
    TransactionBodyMessage, TransactionData,
};
use hedera::signer::SignaturePair;
use hedera::transaction::any::{
    AnyTransaction, AnyTransactionBody, AnyTransactionData, TransactionKind,
};
use hedera::transaction::{
    ToTransactionDataProtobuf, Transaction, TransactionBody, TransactionExecute, TransactionMethod,
    DEFAULT_MAX_TRANSACTION_FEE, DEFAULT_VALID_SECONDS, HBAR,
};
use hedera::transfer_transaction::{HbarTransfer, TransferTransaction, TransferTransactionData};
use hedera::wire::{WireAccount, WireAccountId, WireDuration, WireTimestamp, WireTransactionId};

fn account(num: u64) -> AccountId {
    AccountId { shard: 0, realm: 0, num }
}

fn wire_account(num: i64) -> WireAccountId {
    WireAccountId { shard_num: 0, realm_num: 0, account: Some(WireAccount::AccountNum(num)) }
}

fn tx_id() -> TransactionId {
    TransactionId {
        account_id: account(2),
        valid_start: Timestamp { seconds: 1_700_000_000, nanos: 42 },
    }
}

fn frozen() -> Error {
    Error::InvalidState("transaction is frozen")
}

#[test]
fn new_transaction_is_unsigned_and_unset() {
    let tx: TransferTransaction = Transaction::new();
    assert!(!tx.is_frozen());
    assert_eq!(tx.signers().len(), 0);
    let body = tx.body();
    assert!(body.data.hbar_transfers.is_empty());
    assert!(body.node_account_ids.is_none());
    assert!(body.transaction_valid_duration.is_none());
    assert!(body.max_transaction_fee.is_none());
    assert_eq!(body.transaction_memo, "");
    assert!(body.payer_account_id.is_none());
    assert!(body.transaction_id.is_none());
}

#[test]
fn setters_change_an_unsigned_transaction() {
    let mut tx: TransferTransaction = Transaction::new();
    tx.node_account_ids(vec![account(3), account(4)])
        .unwrap()
        .transaction_valid_duration(ValidDuration { seconds: 30 })
        .unwrap()
        .max_transaction_fee(7)
        .unwrap()
        .transaction_memo("hello".to_string())
        .unwrap()
        .payer_account_id(account(2))
        .unwrap()
        .transaction_id(tx_id())
        .unwrap()
        .hbar_transfer(account(2), -10)
        .unwrap()
        .hbar_transfer(account(5), 10)
        .unwrap();
    let body = tx.body();
    assert_eq!(body.node_account_ids, Some(vec![account(3), account(4)]));
    assert_eq!(body.transaction_valid_duration, Some(ValidDuration { seconds: 30 }));
    assert_eq!(body.max_transaction_fee, Some(7));
    assert_eq!(body.transaction_memo, "hello");
    assert_eq!(body.payer_account_id, Some(account(2)));
    assert_eq!(body.transaction_id, Some(tx_id()));
    assert_eq!(
        body.data.hbar_transfers,
        vec![
            HbarTransfer { account_id: account(2), amount: -10, is_approval: false },
            HbarTransfer { account_id: account(5), amount: 10, is_approval: false },
        ]
    );
    assert!(!tx.is_frozen());
}

#[test]
fn signing_freezes_the_transaction() {
    let mut tx: TransferTransaction = Transaction::new();
    tx.transaction_memo("before".to_string()).unwrap();
    tx.sign_with(vec![1, 2, 3]);
    assert!(tx.is_frozen());

    assert_eq!(tx.transaction_memo("after".to_string()).err(), Some(frozen()));
    assert_eq!(tx.max_transaction_fee(1).err(), Some(frozen()));
    assert_eq!(tx.node_account_ids(vec![account(3)]).err(), Some(frozen()));
    assert_eq!(
        tx.transaction_valid_duration(ValidDuration { seconds: 1 }).err(),
        Some(frozen())
    );
    assert_eq!(tx.payer_account_id(account(9)).err(), Some(frozen()));
    assert_eq!(tx.transaction_id(tx_id()).err(), Some(frozen()));
    assert_eq!(tx.hbar_transfer(account(9), 1).err(), Some(frozen()));
    assert_eq!(tx.data(TransferTransactionData { hbar_transfers: vec![] }).err(), Some(frozen()));

    let body = tx.body();
    assert_eq!(body.transaction_memo, "before");
    assert!(body.max_transaction_fee.is_none());
    assert!(body.node_account_ids.is_none());
    assert!(body.transaction_valid_duration.is_none());
    assert!(body.payer_account_id.is_none());
    assert!(body.transaction_id.is_none());
    assert!(body.data.hbar_transfers.is_empty());
}

#[test]
fn a_frozen_transaction_stays_frozen_and_takes_more_signers() {
    let mut tx: AccountDeleteTransaction = Transaction::new();
    tx.sign_with(vec![1]).sign_with(vec![2]).sign_with(vec![1]);
    assert!(tx.is_frozen());
    assert_eq!(tx.signers().len(), 2);
    assert_eq!(tx.signers().get(0), Some(&vec![1]));
    assert_eq!(tx.signers().get(1), Some(&vec![2]));
    assert_eq!(tx.delete_account_id(account(5)).err(), Some(frozen()));
    assert_eq!(tx.transfer_account_id(account(5)).err(), Some(frozen()));
    assert!(tx.is_frozen());
}

#[test]
fn kind_setters_are_refused_after_signing() {
    let mut create: AccountCreateTransaction = Transaction::new();
    create.key(vec![1]).unwrap().initial_balance(5).unwrap();
    create.sign_with(vec![7]);
    assert_eq!(create.key(vec![2]).err(), Some(frozen()));
    assert_eq!(create.initial_balance(6).err(), Some(frozen()));
    assert_eq!(create.body().data.key, Some(vec![1]));
    assert_eq!(create.body().data.initial_balance, 5);

    let mut update: AccountUpdateTransaction = Transaction::new();
    update.account_id(account(8)).unwrap().key(vec![3]).unwrap();
    update.sign_with(vec![7]);
    assert_eq!(update.account_id(account(9)).err(), Some(frozen()));
    assert_eq!(update.key(vec![4]).err(), Some(frozen()));
    assert_eq!(update.body().data.account_id, Some(account(8)));
    assert_eq!(update.body().data.key, Some(vec![3]));
}

#[test]
fn transaction_signs_in_attachment_order() {
    let mut tx: TransferTransaction = Transaction::new();
    tx.sign_with(vec![2]).sign_with(vec![1]);
    let signatures = tx.sign_payload(&vec![7, 7], |id: &Vec<u8>, payload: &Vec<u8>| {
        let mut s = payload.clone();
        s.extend(id.iter());
        s
    });
    assert_eq!(
        signatures,
        vec![
            SignaturePair { public_identity: vec![2], signature: vec![7, 7, 2] },
            SignaturePair { public_identity: vec![1], signature: vec![7, 7, 1] },
        ]
    );
}

#[test]
fn transfer_renders_its_list_in_order() {
    let data = TransferTransactionData {
        hbar_transfers: vec![
            HbarTransfer { account_id: account(2), amount: -10, is_approval: false },
            HbarTransfer { account_id: account(5), amount: 10, is_approval: true },
        ],
    };
    let rendered = data.to_transaction_data_protobuf(account(3), &tx_id());
    assert_eq!(
        rendered,
        TransactionData::CryptoTransfer(CryptoTransferBody {
            account_amounts: vec![
                AccountAmount { account_id: Some(wire_account(2)), amount: -10, is_approval: false },
                AccountAmount { account_id: Some(wire_account(5)), amount: 10, is_approval: true },
            ],
        })
    );
}

#[test]
fn account_kinds_render_their_fields() {
    let create = AccountCreateTransactionData {
        key: Some(vec![1, 2]),
        initial_balance: 10,
        receiver_signature_required: true,
        auto_renew_period: Some(ValidDuration { seconds: 7_776_000 }),
    };
    assert_eq!(
        create.to_transaction_data_protobuf(account(3), &tx_id()),
        TransactionData::CryptoCreateAccount(CryptoCreateBody {
            key: Some(vec![1, 2]),
            initial_balance: 10,
            receiver_sig_required: true,
            auto_renew_period: Some(WireDuration { seconds: 7_776_000 }),
        })
    );
    let update = AccountUpdateTransactionData {
        account_id: Some(account(9)),
        key: None,
        receiver_signature_required: Some(false),
        auto_renew_period: None,
    };
    assert_eq!(
        update.to_transaction_data_protobuf(account(3), &tx_id()),
        TransactionData::CryptoUpdateAccount(CryptoUpdateBody {
            account_id_to_update: Some(wire_account(9)),
            key: None,
            receiver_sig_required: Some(false),
            auto_renew_period: None,
        })
    );
    let delete = AccountDeleteTransactionData {
        transfer_account_id: Some(account(1)),
        delete_account_id: Some(account(2)),
    };
    assert_eq!(
        delete.to_transaction_data_protobuf(account(3), &tx_id()),
        TransactionData::CryptoDelete(CryptoDeleteBody {
            transfer_account_id: Some(wire_account(1)),
            delete_account_id: Some(wire_account(2)),
        })
    );
}

#[test]
fn default_fees_by_kind() {
    assert_eq!(HBAR, 100_000_000);
    assert_eq!(DEFAULT_MAX_TRANSACTION_FEE, 200_000_000);
    assert_eq!(TransferTransactionData::default().default_max_transaction_fee(), 100_000_000);
    assert_eq!(AccountCreateTransactionData::default().default_max_transaction_fee(), 500_000_000);
    assert_eq!(AccountUpdateTransactionData::default().default_max_transaction_fee(), 200_000_000);
    assert_eq!(AccountDeleteTransactionData::default().default_max_transaction_fee(), 200_000_000);
}

#[test]
fn any_transaction_data_behaves_as_its_variant() {
    let transfer = TransferTransactionData {
        hbar_transfers: vec![HbarTransfer { account_id: account(2), amount: 1, is_approval: false }],
    };
    let create = AccountCreateTransactionData::default();
    let update = AccountUpdateTransactionData::default();
    let delete = AccountDeleteTransactionData::default();

    let any = AnyTransactionData::Transfer(transfer.clone());
    assert_eq!(any.default_max_transaction_fee(), 100_000_000);
    assert_eq!(
        any.to_transaction_data_protobuf(account(3), &tx_id()),
        transfer.to_transaction_data_protobuf(account(3), &tx_id())
    );
    assert_eq!(any.kind(), TransactionKind::Transfer);

    let any = AnyTransactionData::AccountCreate(create.clone());
    assert_eq!(any.default_max_transaction_fee(), 500_000_000);
    assert_eq!(
        any.to_transaction_data_protobuf(account(3), &tx_id()),
        create.to_transaction_data_protobuf(account(3), &tx_id())
    );
    assert_eq!(any.kind(), TransactionKind::AccountCreate);

    let any = AnyTransactionData::AccountUpdate(update.clone());
    assert_eq!(any.default_max_transaction_fee(), 200_000_000);
    assert_eq!(
        any.to_transaction_data_protobuf(account(3), &tx_id()),
        update.to_transaction_data_protobuf(account(3), &tx_id())
    );
    assert_eq!(any.kind(), TransactionKind::AccountUpdate);

    let any = AnyTransactionData::AccountDelete(delete);
    assert_eq!(any.default_max_transaction_fee(), 200_000_000);
    assert_eq!(
        any.to_transaction_data_protobuf(account(3), &tx_id()),
        delete.to_transaction_data_protobuf(account(3), &tx_id())
    );
    assert_eq!(any.kind(), TransactionKind::AccountDelete);
}

#[test]
fn body_renders_with_defaults() {
    let mut tx: TransferTransaction = Transaction::new();
    tx.hbar_transfer(account(2), -1).unwrap().hbar_transfer(account(5), 1).unwrap();
    let msg = tx.body().render(account(3), &tx_id());
    let expected = TransactionBodyMessage {
        transaction_id: Some(WireTransactionId {
            account_id: Some(wire_account(2)),
            transaction_valid_start: Some(WireTimestamp { seconds: 1_700_000_000, nanos: 42 }),
        }),
        node_account_id: Some(wire_account(3)),
        transaction_fee: 100_000_000,
        transaction_valid_duration: Some(WireDuration { seconds: 120 }),
        memo: String::new(),
        data: Some(TransactionData::CryptoTransfer(CryptoTransferBody {
            account_amounts: vec![
                AccountAmount { account_id: Some(wire_account(2)), amount: -1, is_approval: false },
                AccountAmount { account_id: Some(wire_account(5)), amount: 1, is_approval: false },
            ],
        })),
    };
    assert_eq!(msg, expected);
    assert_eq!(DEFAULT_VALID_SECONDS, 120);
}

#[test]
fn body_renders_what_was_set() {
    let mut tx: AccountDeleteTransaction = Transaction::new();
    tx.delete_account_id(account(8))
        .unwrap()
        .transfer_account_id(account(9))
        .unwrap()
        .max_transaction_fee(12345)
        .unwrap()
        .transaction_valid_duration(ValidDuration { seconds: 60 })
        .unwrap()
        .transaction_memo("note".to_string())
        .unwrap();
    let msg = tx.body().render(account(4), &tx_id());
    assert_eq!(msg.transaction_fee, 12345);
    assert_eq!(msg.transaction_valid_duration, Some(WireDuration { seconds: 60 }));
    assert_eq!(msg.memo, "note");
    assert_eq!(msg.node_account_id, Some(wire_account(4)));
    assert_eq!(
        msg.data,
        Some(TransactionData::CryptoDelete(CryptoDeleteBody {
            transfer_account_id: Some(wire_account(9)),
            delete_account_id: Some(wire_account(8)),
        }))
    );
}

#[test]
fn rendering_under_one_identifier_differs_only_in_the_node() {
    let mut tx: TransferTransaction = Transaction::new();
    tx.hbar_transfer(account(2), -1).unwrap();
    let first = tx.body().render(account(3), &tx_id());
    let second = tx.body().render(account(4), &tx_id());
    assert_eq!(first.transaction_id, second.transaction_id);
    assert_eq!(first.data, second.data);
    assert_eq!(first.transaction_fee, second.transaction_fee);
    assert_ne!(first.node_account_id, second.node_account_id);
}

#[test]
fn transaction_id_is_chosen_from_what_is_known() {
    let now = Timestamp { seconds: 500, nanos: 1 };
    let mut tx: TransferTransaction = Transaction::new();
    assert_eq!(
        tx.choose_transaction_id(None, now),
        Err(Error::Build { fault: BuildFault::MissingTransactionId, transaction_id: None })
    );
    assert_eq!(
        tx.choose_transaction_id(Some(account(7)), now),
        Ok(TransactionId { account_id: account(7), valid_start: now })
    );
    tx.payer_account_id(account(8)).unwrap();
    assert_eq!(
        tx.choose_transaction_id(Some(account(7)), now),
        Ok(TransactionId { account_id: account(8), valid_start: now })
    );
    tx.transaction_id(tx_id()).unwrap();
    assert_eq!(tx.choose_transaction_id(Some(account(7)), now), Ok(tx_id()));
    assert_eq!(tx.choose_transaction_id(None, now), Ok(tx_id()));
}

#[test]
fn tags_name_the_kinds() {
    assert_eq!(TransactionKind::AccountCreate.tag(), "accountCreate");
    assert_eq!(TransactionKind::AccountUpdate.tag(), "accountUpdate");
    assert_eq!(TransactionKind::AccountDelete.tag(), "accountDelete");
    assert_eq!(TransactionKind::Transfer.tag(), "transfer");
}

#[test]
fn every_kind_is_found_again_by_its_tag() {
    for kind in [
        TransactionKind::AccountCreate,
        TransactionKind::AccountUpdate,
        TransactionKind::AccountDelete,
        TransactionKind::Transfer,
    ] {
        assert_eq!(TransactionKind::from_tag(kind.tag()), Ok(kind));
    }
}

#[test]
fn unknown_tag_fails_with_unknown_variant() {
    for tag in ["tokenMint", "", "Transfer", "transfer ", "accountcreate", "accountCreat"] {
        assert_eq!(TransactionKind::from_tag(tag), Err(Error::UnknownVariant(tag.to_string())));
    }
}

#[test]
fn stored_body_round_trip_keeps_every_field() {
    let mut tx: AnyTransaction = Transaction::with_data(AnyTransactionData::Transfer(
        TransferTransactionData {
            hbar_transfers: vec![HbarTransfer {
                account_id: account(2),
                amount: -5,
                is_approval: false,
            }],
        },
    ));
    tx.node_account_ids(vec![account(3)])
        .unwrap()
        .transaction_valid_duration(ValidDuration { seconds: 90 })
        .unwrap()
        .max_transaction_fee(77)
        .unwrap()
        .transaction_memo("stored".to_string())
        .unwrap()
        .payer_account_id(account(2))
        .unwrap()
        .transaction_id(tx_id())
        .unwrap();
    let before = tx.body().render(account(3), &tx_id());

    let stored: AnyTransactionBody<AnyTransactionData> = AnyTransactionBody::from(TransactionBody {
        data: tx.body().data.clone(),
        node_account_ids: tx.body().node_account_ids.clone(),
        transaction_valid_duration: tx.body().transaction_valid_duration,
        max_transaction_fee: tx.body().max_transaction_fee,
        transaction_memo: tx.body().transaction_memo.clone(),
        payer_account_id: tx.body().payer_account_id,
        transaction_id: tx.body().transaction_id,
    });
    assert_eq!(stored.node_account_ids, Some(vec![account(3)]));
    assert_eq!(stored.transaction_valid_duration, Some(ValidDuration { seconds: 90 }));
    assert_eq!(stored.max_transaction_fee, Some(77));
    assert_eq!(stored.transaction_memo, "stored");
    assert_eq!(stored.payer_account_id, Some(account(2)));
    assert_eq!(stored.transaction_id, Some(tx_id()));

    let read: AnyTransaction = Transaction::from(stored);
    assert!(!read.is_frozen());
    assert_eq!(read.signers().len(), 0);
    let after = read.body().render(account(3), &tx_id());
    assert_eq!(before, after);
}

#[test]
fn stored_body_converts_into_a_body_field_by_field() {
    let stored = AnyTransactionBody {
        data: AccountDeleteTransactionData {
            transfer_account_id: Some(account(1)),
            delete_account_id: None,
        },
        node_account_ids: None,
        transaction_valid_duration: None,
        max_transaction_fee: Some(3),
        transaction_memo: "m".to_string(),
        payer_account_id: None,
        transaction_id: None,
    };
    let body: TransactionBody<AccountDeleteTransactionData> = stored.into();
    assert_eq!(body.data.transfer_account_id, Some(account(1)));
    assert_eq!(body.data.delete_account_id, None);
    assert_eq!(body.max_transaction_fee, Some(3));
    assert_eq!(body.transaction_memo, "m");
    assert!(body.node_account_ids.is_none());
    assert!(body.transaction_valid_duration.is_none());
    assert!(body.payer_account_id.is_none());
    assert!(body.transaction_id.is_none());
}

#[test]
fn each_kind_of_transaction_names_its_call() {
    assert_eq!(AccountCreateTransactionData::default().method(), TransactionMethod::CreateAccount);
    assert_eq!(AccountUpdateTransactionData::default().method(), TransactionMethod::UpdateAccount);
    assert_eq!(AccountDeleteTransactionData::default().method(), TransactionMethod::CryptoDelete);
    assert_eq!(TransferTransactionData::default().method(), TransactionMethod::CryptoTransfer);
    assert_eq!(
        AnyTransactionData::AccountCreate(AccountCreateTransactionData::default()).method(),
        TransactionMethod::CreateAccount
    );
    assert_eq!(
        AnyTransactionData::AccountUpdate(AccountUpdateTransactionData::default()).method(),
        TransactionMethod::UpdateAccount
    );
    assert_eq!(
        AnyTransactionData::AccountDelete(AccountDeleteTransactionData::default()).method(),
        TransactionMethod::CryptoDelete
    );
    assert_eq!(
        AnyTransactionData::Transfer(TransferTransactionData::default()).method(),
        TransactionMethod::CryptoTransfer
    );
}
