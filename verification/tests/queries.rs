use hedera::error::ResponseKind;
use hedera::execute::receipt::TransactionReceiptQueryData;
use hedera::query::AnyQuery;
use hedera::account::account_balance_query::{
    AccountBalanceQuery, AccountBalanceQueryData, AccountBalanceSource,
};
use hedera::account::account_records_query::{AccountRecordsQuery, AccountRecordsQueryData};
use hedera::contract::contract_bytecode_query::{ContractBytecodeQuery, ContractBytecodeQueryData};
use hedera::entity::{
    AccountAlias, AccountId, AccountIdOrAlias, ContractEvmAddress, ContractId,
    ContractIdOrEvmAddress, FileId,
};
use hedera::error::{BuildFault, Error};
use hedera::file::file_contents_query::{FileContentsQuery, FileContentsQueryData};
use hedera::message::{BalanceSource, QueryBody, QueryHeader, QueryMessage, ResponseType};
use hedera::query::{AnyQueryData, Query, QueryExecute, QueryMethod, ToQueryProtobuf};
use hedera::wire::{
    to_wire_num, WireAccount, WireAccountId, WireContract, WireContractId, WireFileId,
};

fn header() -> QueryHeader {
    QueryHeader { payment: None, response_type: ResponseType::AnswerOnly }
}

fn paid_header() -> QueryHeader {
    QueryHeader { payment: Some(vec![1, 2, 3]), response_type: ResponseType::AnswerOnly }
}

#[test]
fn balance_query_account_id_sets_source() {
    let mut query: AccountBalanceQuery = Query::new();
    query.account_id(AccountId { shard: 0, realm: 0, num: 1001 });
    match &query.data.source {
        Some(AccountBalanceSource::Account(AccountIdOrAlias::AccountId(id))) => {
            assert_eq!(*id, AccountId { shard: 0, realm: 0, num: 1001 });
        }
        _ => panic!("source is not the account"),
    }
}

#[test]
fn balance_query_takes_an_alias_as_it_is() {
    let alias = AccountAlias { shard: 1, realm: 2, alias: vec![9, 8, 7] };
    let mut query: AccountBalanceQuery = Query::new();
    query.account_id(AccountIdOrAlias::AccountAlias(alias.clone()));
    match &query.data.source {
        Some(AccountBalanceSource::Account(AccountIdOrAlias::AccountAlias(a))) => {
            assert_eq!(*a, alias);
        }
        _ => panic!("source is not the alias"),
    }
}

#[test]
fn balance_query_account_and_contract_exclude_each_other() {
    let mut query: AccountBalanceQuery = Query::new();
    query
        .account_id(AccountId { shard: 0, realm: 0, num: 5 })
        .contract_id(ContractIdOrEvmAddress::ContractId(ContractId { shard: 0, realm: 0, num: 6 }));
    match &query.data.source {
        Some(AccountBalanceSource::Contract(ContractIdOrEvmAddress::ContractId(id))) => {
            assert_eq!(id.num, 6);
        }
        _ => panic!("the later call did not win"),
    }
    query.account_id(AccountId { shard: 0, realm: 0, num: 5 });
    assert!(matches!(query.data.source, Some(AccountBalanceSource::Account(_))));
}

#[test]
fn balance_query_default_has_no_source() {
    let query: AccountBalanceQuery = Query::new();
    assert!(query.data.source.is_none());
    assert!(query.node_account_ids.is_none());
    assert!(query.payment.is_none());
}

#[test]
fn balance_query_renders_account() {
    let mut query: AccountBalanceQuery = Query::new();
    query.account_id(AccountId { shard: 1, realm: 2, num: 3 });
    let msg = query.data.to_query_protobuf(header());
    let expected = QueryMessage {
        query: Some(QueryBody::CryptogetAccountBalance {
            balance_source: Some(BalanceSource::AccountId(WireAccountId {
                shard_num: 1,
                realm_num: 2,
                account: Some(WireAccount::AccountNum(3)),
            })),
            header: Some(header()),
        }),
    };
    assert_eq!(msg, expected);
}

#[test]
fn balance_query_renders_alias_bytes() {
    let mut query: AccountBalanceQuery = Query::new();
    query.account_id(AccountAlias { shard: 0, realm: 0, alias: vec![0xab, 0xcd] });
    let msg = query.data.to_query_protobuf(header());
    let expected = QueryMessage {
        query: Some(QueryBody::CryptogetAccountBalance {
            balance_source: Some(BalanceSource::AccountId(WireAccountId {
                shard_num: 0,
                realm_num: 0,
                account: Some(WireAccount::Alias(vec![0xab, 0xcd])),
            })),
            header: Some(header()),
        }),
    };
    assert_eq!(msg, expected);
}

#[test]
fn balance_query_renders_contract_and_evm_address() {
    let mut query: AccountBalanceQuery = Query::new();
    query.contract_id(ContractIdOrEvmAddress::ContractId(ContractId {
        shard: 0,
        realm: 0,
        num: 44,
    }));
    let msg = query.data.to_query_protobuf(header());
    let expected = QueryMessage {
        query: Some(QueryBody::CryptogetAccountBalance {
            balance_source: Some(BalanceSource::ContractId(WireContractId {
                shard_num: 0,
                realm_num: 0,
                contract: Some(WireContract::ContractNum(44)),
            })),
            header: Some(header()),
        }),
    };
    assert_eq!(msg, expected);

    let mut address = [0u8; 20];
    for (i, byte) in address.iter_mut().enumerate() {
        *byte = i as u8 + 1;
    }
    query.contract_id(ContractIdOrEvmAddress::ContractEvmAddress(ContractEvmAddress {
        shard: 3,
        realm: 4,
        address,
    }));
    let msg = query.data.to_query_protobuf(header());
    let expected = QueryMessage {
        query: Some(QueryBody::CryptogetAccountBalance {
            balance_source: Some(BalanceSource::ContractId(WireContractId {
                shard_num: 3,
                realm_num: 4,
                contract: Some(WireContract::EvmAddress((1u8..=20).collect())),
            })),
            header: Some(header()),
        }),
    };
    assert_eq!(msg, expected);
}

#[test]
fn balance_query_without_source_renders_no_source() {
    let data = AccountBalanceQueryData { source: None };
    let msg = data.to_query_protobuf(paid_header());
    let expected = QueryMessage {
        query: Some(QueryBody::CryptogetAccountBalance {
            balance_source: None,
            header: Some(paid_header()),
        }),
    };
    assert_eq!(msg, expected);
}

#[test]
fn balance_query_needs_no_payment() {
    assert!(!AccountBalanceQueryData::default().is_payment_required());
    let mut query: AccountBalanceQuery = Query::new();
    query.account_id(AccountId { shard: 0, realm: 0, num: 2 });
    let msg = query.render().unwrap();
    assert_eq!(msg, query.data.to_query_protobuf(header()));
}

#[test]
fn records_query_sets_and_renders_account() {
    let mut query: AccountRecordsQuery = Query::new();
    assert!(query.data.account_id.is_none());
    query.account_id(AccountId { shard: 0, realm: 0, num: 77 });
    assert_eq!(query.data.account_id, Some(AccountId { shard: 0, realm: 0, num: 77 }));
    let msg = query.data.to_query_protobuf(paid_header());
    let expected = QueryMessage {
        query: Some(QueryBody::CryptoGetAccountRecords {
            account_id: Some(WireAccountId {
                shard_num: 0,
                realm_num: 0,
                account: Some(WireAccount::AccountNum(77)),
            }),
            header: Some(paid_header()),
        }),
    };
    assert_eq!(msg, expected);
}

#[test]
fn records_query_without_payment_is_not_rendered() {
    assert!(AccountRecordsQueryData::default().is_payment_required());
    let mut query: AccountRecordsQuery = Query::new();
    query.account_id(AccountId { shard: 0, realm: 0, num: 77 });
    assert_eq!(
        query.render(),
        Err(Error::Build { fault: BuildFault::PaymentRequired, transaction_id: None })
    );
    query.payment(vec![1, 2, 3]);
    assert_eq!(query.render(), Ok(query.data.to_query_protobuf(paid_header())));
}

#[test]
fn bytecode_query_sets_and_renders_contract() {
    let mut query: ContractBytecodeQuery = Query::new();
    assert!(query.data.contract_id.is_none());
    query.contract_id(ContractId { shard: 5, realm: 6, num: 7 });
    assert_eq!(query.data.contract_id, Some(ContractId { shard: 5, realm: 6, num: 7 }));
    let msg = query.data.to_query_protobuf(paid_header());
    let expected = QueryMessage {
        query: Some(QueryBody::ContractGetBytecode {
            contract_id: Some(WireContractId {
                shard_num: 5,
                realm_num: 6,
                contract: Some(WireContract::ContractNum(7)),
            }),
            header: Some(paid_header()),
        }),
    };
    assert_eq!(msg, expected);
    assert!(ContractBytecodeQueryData::default().is_payment_required());
}

#[test]
fn file_contents_query_sets_and_renders_file() {
    let mut query: FileContentsQuery = Query::new();
    assert!(query.data.file_id.is_none());
    query.file_id(FileId { shard: 0, realm: 0, num: 150 });
    assert_eq!(query.data.file_id, Some(FileId { shard: 0, realm: 0, num: 150 }));
    let msg = query.data.to_query_protobuf(paid_header());
    let expected = QueryMessage {
        query: Some(QueryBody::FileGetContents {
            file_id: Some(WireFileId { shard_num: 0, realm_num: 0, file_num: 150 }),
            header: Some(paid_header()),
        }),
    };
    assert_eq!(msg, expected);
    assert!(FileContentsQueryData::default().is_payment_required());
}

#[test]
fn file_contents_query_without_file_renders_none() {
    let data = FileContentsQueryData { file_id: None };
    let msg = data.to_query_protobuf(header());
    let expected = QueryMessage {
        query: Some(QueryBody::FileGetContents { file_id: None, header: Some(header()) }),
    };
    assert_eq!(msg, expected);
}

#[test]
fn setters_leave_nodes_and_payment_alone() {
    let nodes = vec![AccountId { shard: 0, realm: 0, num: 3 }, AccountId { shard: 0, realm: 0, num: 4 }];
    let mut query: FileContentsQuery = Query::new();
    query.node_account_ids(nodes.clone()).payment(vec![7]);
    query.file_id(FileId { shard: 0, realm: 0, num: 1 });
    assert_eq!(query.node_account_ids, Some(nodes));
    assert_eq!(query.payment, Some(vec![7]));
}

#[test]
fn any_query_data_renders_as_its_variant() {
    let records = AccountRecordsQueryData { account_id: Some(AccountId { shard: 0, realm: 0, num: 9 }) };
    let any: AnyQueryData = records.into();
    assert!(matches!(any, AnyQueryData::AccountRecords(_)));
    assert_eq!(any.to_query_protobuf(header()), records.to_query_protobuf(header()));

    let bytecode = ContractBytecodeQueryData { contract_id: None };
    let any: AnyQueryData = bytecode.into();
    assert!(matches!(any, AnyQueryData::ContractBytecode(_)));
    assert_eq!(any.to_query_protobuf(header()), bytecode.to_query_protobuf(header()));

    let file = FileContentsQueryData { file_id: Some(FileId { shard: 0, realm: 0, num: 2 }) };
    let any: AnyQueryData = file.into();
    assert!(matches!(any, AnyQueryData::FileContents(_)));
    assert_eq!(any.to_query_protobuf(header()), file.to_query_protobuf(header()));

    let balance = AccountBalanceQueryData { source: None };
    let any: AnyQueryData = balance.clone().into();
    assert!(matches!(any, AnyQueryData::AccountBalance(_)));
    assert_eq!(any.to_query_protobuf(header()), balance.to_query_protobuf(header()));
}

#[test]
fn wire_numbers_keep_their_bits() {
    assert_eq!(to_wire_num(0), 0);
    assert_eq!(to_wire_num(1001), 1001);
    assert_eq!(to_wire_num(i64::MAX as u64), i64::MAX);
    assert_eq!(to_wire_num(1u64 << 63), i64::MIN);
    assert_eq!(to_wire_num(u64::MAX), -1);
}

#[test]
fn account_id_converts_into_either_form() {
    let id = AccountId { shard: 0, realm: 0, num: 1 };
    assert_eq!(AccountIdOrAlias::from(id), AccountIdOrAlias::AccountId(id));
    let alias = AccountAlias { shard: 0, realm: 0, alias: vec![1] };
    assert_eq!(AccountIdOrAlias::from(alias.clone()), AccountIdOrAlias::AccountAlias(alias));
    let contract = ContractId { shard: 0, realm: 0, num: 1 };
    assert_eq!(ContractIdOrEvmAddress::from(contract), ContractIdOrEvmAddress::ContractId(contract));
}

#[test]
fn each_kind_of_query_names_its_answer() {
    assert_eq!(AccountBalanceQueryData::default().response_kind(), ResponseKind::CryptogetAccountBalance);
    assert_eq!(AccountRecordsQueryData::default().response_kind(), ResponseKind::CryptoGetAccountRecords);
    assert_eq!(
        ContractBytecodeQueryData::default().response_kind(),
        ResponseKind::ContractGetBytecodeResponse
    );
    assert_eq!(FileContentsQueryData::default().response_kind(), ResponseKind::FileGetContents);
    assert_eq!(TransactionReceiptQueryData { transaction_id: None }.response_kind(), ResponseKind::TransactionGetReceipt);
}

#[test]
fn any_query_is_executed_as_its_variant() {
    let records = AccountRecordsQueryData { account_id: Some(AccountId { shard: 0, realm: 0, num: 9 }) };
    let mut any: AnyQuery = Query::with_data(records.into());
    assert!(any.data.is_payment_required());
    assert_eq!(any.data.response_kind(), ResponseKind::CryptoGetAccountRecords);
    assert_eq!(
        any.render(),
        Err(Error::Build { fault: BuildFault::PaymentRequired, transaction_id: None })
    );
    any.payment(vec![1, 2, 3]);
    assert_eq!(any.render(), Ok(records.to_query_protobuf(paid_header())));

    let balance = AccountBalanceQueryData { source: None };
    let any: AnyQuery = Query::with_data(balance.clone().into());
    assert!(!any.data.is_payment_required());
    assert_eq!(any.data.response_kind(), ResponseKind::CryptogetAccountBalance);
    assert_eq!(any.render(), Ok(balance.to_query_protobuf(header())));
}

#[test]
fn each_kind_of_query_names_its_call() {
    assert_eq!(AccountBalanceQueryData::default().method(), QueryMethod::CryptoGetBalance);
    assert_eq!(AccountRecordsQueryData::default().method(), QueryMethod::GetAccountRecords);
    assert_eq!(ContractBytecodeQueryData::default().method(), QueryMethod::ContractGetBytecode);
    assert_eq!(FileContentsQueryData::default().method(), QueryMethod::GetFileContent);
    assert_eq!(
        TransactionReceiptQueryData { transaction_id: None }.method(),
        QueryMethod::GetTransactionReceipts
    );
    let any: AnyQueryData = FileContentsQueryData::default().into();
    assert_eq!(any.method(), QueryMethod::GetFileContent);
}

#[test]
fn the_main_names_stand_at_the_root() {
    let mut query = hedera::FileContentsQuery::new();
    query.file_id(hedera::FileId { shard: 0, realm: 0, num: 1 });
    assert_eq!(query.data.file_id, Some(FileId { shard: 0, realm: 0, num: 1 }));
    let tx: hedera::AnyTransaction = hedera::Transaction::with_data(
        hedera::AnyTransactionData::Transfer(hedera::TransferTransactionData::default()),
    );
    assert!(!tx.is_frozen());
}
