use hedera::contract::contract_bytecode_query::ContractBytecodeQuery;
use hedera::query::Query;
use hedera::entity::{AccountId, ContractId, FileId, Timestamp, TransactionId};
use hedera::error::{Error, ProtobufFault, ResponseKind};
use hedera::execute::receipt::Receipt;
use hedera::response::{
    account_balance_from_protobuf, account_records_from_protobuf, bytecode_from_protobuf,
    file_contents_from_protobuf, receipt_from_protobuf, records_from_protobuf, to_read_num,
    AccountBalance, FileContentsResponse, ResponseBody, TransactionRecord, WireReceipt, WireRecord,
};
use hedera::wire::{
    to_wire_num, WireAccount, WireAccountId, WireContract, WireContractId, WireFileId,
    WireTimestamp, WireTransactionId,
};

fn wire_account(num: i64) -> WireAccountId {
    WireAccountId { shard_num: 0, realm_num: 0, account: Some(WireAccount::AccountNum(num)) }
}

fn account(num: u64) -> AccountId {
    AccountId { shard: 0, realm: 0, num }
}

fn wire_tx(num: i64) -> WireTransactionId {
    WireTransactionId {
        account_id: Some(wire_account(num)),
        transaction_valid_start: Some(WireTimestamp { seconds: 9, nanos: 8 }),
    }
}

fn tx(num: u64) -> TransactionId {
    TransactionId { account_id: account(num), valid_start: Timestamp { seconds: 9, nanos: 8 } }
}

fn wire_receipt(status: i32) -> WireReceipt {
    WireReceipt { status, account_id: None, file_id: None, contract_id: None }
}

fn receipt(status: i32) -> Receipt {
    Receipt { status, account_id: None, file_id: None, contract_id: None }
}

fn fault(f: ProtobufFault) -> Error {
    Error::FromProtobuf(f)
}

fn unexpected(expected: ResponseKind, found: ResponseKind) -> Error {
    fault(ProtobufFault::UnexpectedResponse { expected, found })
}

#[test]
fn numbers_come_back_from_the_wire() {
    for x in [0u64, 1, 1001, i64::MAX as u64, 1 << 63, u64::MAX] {
        assert_eq!(to_read_num(to_wire_num(x)), x);
    }
    assert_eq!(to_read_num(-1), u64::MAX);
    assert_eq!(to_read_num(i64::MIN), 1 << 63);
}

#[test]
fn identifiers_come_back_from_the_wire() {
    let a = AccountId { shard: 1, realm: u64::MAX, num: 1 << 63 };
    assert_eq!(AccountId::from_protobuf(&a.to_protobuf()), Ok(a));
    let c = ContractId { shard: 7, realm: 8, num: 9 };
    assert_eq!(ContractId::from_protobuf(&c.to_protobuf()), Ok(c));
    let f = FileId { shard: 0, realm: 0, num: 150 };
    assert_eq!(FileId::from_protobuf(&f.to_protobuf()), f);
    let t = TransactionId { account_id: a, valid_start: Timestamp { seconds: -5, nanos: 999 } };
    assert_eq!(TransactionId::from_protobuf(&t.to_protobuf()), Ok(t));
}

#[test]
fn identifiers_that_cannot_be_read() {
    let alias = WireAccountId { shard_num: 0, realm_num: 0, account: Some(WireAccount::Alias(vec![1])) };
    assert_eq!(AccountId::from_protobuf(&alias), Err(fault(ProtobufFault::UnexpectedAlias)));
    let empty = WireAccountId { shard_num: 0, realm_num: 0, account: None };
    assert_eq!(AccountId::from_protobuf(&empty), Err(fault(ProtobufFault::MissingAccount)));
    let evm = WireContractId {
        shard_num: 0,
        realm_num: 0,
        contract: Some(WireContract::EvmAddress(vec![0; 20])),
    };
    assert_eq!(ContractId::from_protobuf(&evm), Err(fault(ProtobufFault::UnexpectedEvmAddress)));
    let none = WireContractId { shard_num: 0, realm_num: 0, contract: None };
    assert_eq!(ContractId::from_protobuf(&none), Err(fault(ProtobufFault::MissingContract)));
    let no_payer = WireTransactionId {
        account_id: None,
        transaction_valid_start: Some(WireTimestamp { seconds: 1, nanos: 1 }),
    };
    assert_eq!(TransactionId::from_protobuf(&no_payer), Err(fault(ProtobufFault::MissingPayer)));
    let no_start = WireTransactionId { account_id: Some(wire_account(2)), transaction_valid_start: None };
    assert_eq!(
        TransactionId::from_protobuf(&no_start),
        Err(fault(ProtobufFault::MissingValidStart))
    );
    let alias_payer = WireTransactionId { account_id: Some(alias), transaction_valid_start: None };
    assert_eq!(
        TransactionId::from_protobuf(&alias_payer),
        Err(fault(ProtobufFault::UnexpectedAlias))
    );
}

#[test]
fn bytecode_is_handed_on_as_it_came() {
    let pb = ResponseBody::ContractGetBytecodeResponse { bytecode: vec![0x60, 0x80, 0x60, 0x40] };
    assert_eq!(bytecode_from_protobuf(pb), Ok(vec![0x60, 0x80, 0x60, 0x40]));
    let pb = ResponseBody::ContractGetBytecodeResponse { bytecode: vec![] };
    assert_eq!(bytecode_from_protobuf(pb), Ok(vec![]));
}

#[test]
fn an_answer_of_another_kind_is_refused() {
    let file = ResponseBody::FileGetContents { file_id: None, contents: vec![1] };
    assert_eq!(
        bytecode_from_protobuf(file.clone()),
        Err(unexpected(ResponseKind::ContractGetBytecodeResponse, ResponseKind::FileGetContents))
    );
    assert_eq!(
        account_records_from_protobuf(file.clone()),
        Err(unexpected(ResponseKind::CryptoGetAccountRecords, ResponseKind::FileGetContents))
    );
    assert_eq!(
        account_balance_from_protobuf(file.clone()),
        Err(unexpected(ResponseKind::CryptogetAccountBalance, ResponseKind::FileGetContents))
    );
    assert_eq!(
        receipt_from_protobuf(file),
        Err(unexpected(ResponseKind::TransactionGetReceipt, ResponseKind::FileGetContents))
    );
    let bytecode = ResponseBody::ContractGetBytecodeResponse { bytecode: vec![] };
    assert_eq!(
        file_contents_from_protobuf(bytecode),
        Err(unexpected(ResponseKind::FileGetContents, ResponseKind::ContractGetBytecodeResponse))
    );
}

#[test]
fn response_kinds() {
    assert_eq!(
        ResponseBody::CryptogetAccountBalance { account_id: None, balance: 0 }.kind(),
        ResponseKind::CryptogetAccountBalance
    );
    assert_eq!(
        ResponseBody::CryptoGetAccountRecords { records: vec![] }.kind(),
        ResponseKind::CryptoGetAccountRecords
    );
    assert_eq!(
        ResponseBody::ContractGetBytecodeResponse { bytecode: vec![] }.kind(),
        ResponseKind::ContractGetBytecodeResponse
    );
    assert_eq!(
        ResponseBody::FileGetContents { file_id: None, contents: vec![] }.kind(),
        ResponseKind::FileGetContents
    );
    assert_eq!(
        ResponseBody::TransactionGetReceipt { receipt: None }.kind(),
        ResponseKind::TransactionGetReceipt
    );
}

#[test]
fn balance_names_its_account() {
    let pb = ResponseBody::CryptogetAccountBalance { account_id: Some(wire_account(1001)), balance: 55 };
    assert_eq!(
        account_balance_from_protobuf(pb),
        Ok(AccountBalance { account_id: account(1001), hbars: 55 })
    );
    let pb = ResponseBody::CryptogetAccountBalance { account_id: None, balance: 55 };
    assert_eq!(account_balance_from_protobuf(pb), Err(fault(ProtobufFault::MissingAccount)));
}

#[test]
fn file_contents_name_their_file() {
    let pb = ResponseBody::FileGetContents {
        file_id: Some(WireFileId { shard_num: 0, realm_num: 0, file_num: 150 }),
        contents: vec![104, 105],
    };
    assert_eq!(
        file_contents_from_protobuf(pb),
        Ok(FileContentsResponse {
            file_id: FileId { shard: 0, realm: 0, num: 150 },
            contents: vec![104, 105]
        })
    );
    let pb = ResponseBody::FileGetContents { file_id: None, contents: vec![] };
    assert_eq!(
        file_contents_from_protobuf(pb),
        Ok(FileContentsResponse { file_id: FileId { shard: 0, realm: 0, num: 0 }, contents: vec![] })
    );
}

#[test]
fn receipt_is_read_with_what_it_created() {
    let pb = ResponseBody::TransactionGetReceipt {
        receipt: Some(WireReceipt {
            status: 22,
            account_id: Some(wire_account(4242)),
            file_id: Some(WireFileId { shard_num: 0, realm_num: 0, file_num: 7 }),
            contract_id: Some(WireContractId {
                shard_num: 0,
                realm_num: 0,
                contract: Some(WireContract::ContractNum(8)),
            }),
        }),
    };
    assert_eq!(
        receipt_from_protobuf(pb),
        Ok(Receipt {
            status: 22,
            account_id: Some(account(4242)),
            file_id: Some(FileId { shard: 0, realm: 0, num: 7 }),
            contract_id: Some(ContractId { shard: 0, realm: 0, num: 8 }),
        })
    );
    let pb = ResponseBody::TransactionGetReceipt { receipt: None };
    assert_eq!(receipt_from_protobuf(pb), Err(fault(ProtobufFault::MissingReceipt)));
    let pb = ResponseBody::TransactionGetReceipt { receipt: Some(wire_receipt(21)) };
    assert_eq!(receipt_from_protobuf(pb), Ok(receipt(21)));
}

#[test]
fn records_are_read_in_order() {
    let list = vec![
        WireRecord { receipt: Some(wire_receipt(22)), transaction_id: Some(wire_tx(2)), transaction_fee: 10 },
        WireRecord { receipt: Some(wire_receipt(28)), transaction_id: Some(wire_tx(3)), transaction_fee: 20 },
    ];
    let expected = vec![
        TransactionRecord { receipt: receipt(22), transaction_id: tx(2), transaction_fee: 10 },
        TransactionRecord { receipt: receipt(28), transaction_id: tx(3), transaction_fee: 20 },
    ];
    assert_eq!(records_from_protobuf(&list), Ok(expected.clone()));
    assert_eq!(
        account_records_from_protobuf(ResponseBody::CryptoGetAccountRecords { records: list }),
        Ok(expected)
    );
    assert_eq!(records_from_protobuf(&vec![]), Ok(vec![]));
}

#[test]
fn records_fail_as_the_first_unreadable_record() {
    let good = WireRecord {
        receipt: Some(wire_receipt(22)),
        transaction_id: Some(wire_tx(2)),
        transaction_fee: 10,
    };
    let no_receipt = WireRecord { receipt: None, transaction_id: Some(wire_tx(2)), transaction_fee: 1 };
    let no_id = WireRecord { receipt: Some(wire_receipt(22)), transaction_id: None, transaction_fee: 1 };
    assert_eq!(
        records_from_protobuf(&vec![good.clone(), no_receipt.clone(), no_id.clone()]),
        Err(fault(ProtobufFault::MissingReceipt))
    );
    assert_eq!(
        records_from_protobuf(&vec![good.clone(), no_id.clone(), no_receipt.clone()]),
        Err(fault(ProtobufFault::MissingTransactionId))
    );
    assert_eq!(
        TransactionRecord::from_protobuf(&no_receipt),
        Err(fault(ProtobufFault::MissingReceipt))
    );
    assert_eq!(
        TransactionRecord::from_protobuf(&no_id),
        Err(fault(ProtobufFault::MissingTransactionId))
    );
}

#[test]
fn a_query_accepts_only_the_answer_of_its_kind() {
    let query: ContractBytecodeQuery = Query::new();
    let bytecode = ResponseBody::ContractGetBytecodeResponse { bytecode: vec![1] };
    assert_eq!(query.check_response(&bytecode), Ok(()));
    let receipt = ResponseBody::TransactionGetReceipt { receipt: None };
    assert_eq!(
        query.check_response(&receipt),
        Err(unexpected(ResponseKind::ContractGetBytecodeResponse, ResponseKind::TransactionGetReceipt))
    );
}
