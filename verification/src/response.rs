//! The answers of the network to queries, as plain values, and how each
//! kind of query reads the answer that belongs to it.

use vstd::prelude::*;
use crate::entity::{AccountId, ContractId, FileId, Timestamp, TransactionId};
use crate::error::{Error, ProtobufFault, ResponseKind};
use crate::execute::receipt::Receipt;
use crate::wire::{wire_num, WireAccount, WireAccountId,
    WireAccountIdView, WireAccountView, WireContract, WireContractId, WireContractIdView,
    WireContractView, WireFileId, WireTransactionId, WireTransactionIdView};

verus! {

/// A number of the wire read back: the same 64 bits, read as unsigned.
pub open spec fn read_num(x: i64) -> u64 {
    x as u64
}

pub fn to_read_num(x: i64) -> (r: u64)
    ensures
        r == read_num(x),
{
    #[verifier::truncate]
    (x as u64)
}

/// A number that went to the wire comes back as it was.
pub proof fn lemma_num_round_trip(x: u64)
    ensures
        read_num(wire_num(x)) == x,
{
    assert((x as i64) as u64 == x) by (bit_vector);
}

/// The account that a wire identifier names by number.
pub open spec fn account_of(pb: WireAccountIdView) -> Result<AccountId, Error> {
    match pb.account {
        Some(WireAccountView::AccountNum(num)) => Ok(
            AccountId {
                shard: read_num(pb.shard_num),
                realm: read_num(pb.realm_num),
                num: read_num(num),
            },
        ),
        Some(WireAccountView::Alias(_)) => Err(Error::FromProtobuf(ProtobufFault::UnexpectedAlias)),
        None => Err(Error::FromProtobuf(ProtobufFault::MissingAccount)),
    }
}

/// The contract that a wire identifier names by number.
pub open spec fn contract_of(pb: WireContractIdView) -> Result<ContractId, Error> {
    match pb.contract {
        Some(WireContractView::ContractNum(num)) => Ok(
            ContractId {
                shard: read_num(pb.shard_num),
                realm: read_num(pb.realm_num),
                num: read_num(num),
            },
        ),
        Some(WireContractView::EvmAddress(_)) => Err(
            Error::FromProtobuf(ProtobufFault::UnexpectedEvmAddress),
        ),
        None => Err(Error::FromProtobuf(ProtobufFault::MissingContract)),
    }
}

/// The file that a wire identifier names.
pub open spec fn file_of(pb: WireFileId) -> FileId {
    FileId {
        shard: read_num(pb.shard_num),
        realm: read_num(pb.realm_num),
        num: read_num(pb.file_num),
    }
}

/// The submission that a wire identifier names.
pub open spec fn transaction_of(pb: WireTransactionIdView) -> Result<TransactionId, Error> {
    match pb.account_id {
        None => Err(Error::FromProtobuf(ProtobufFault::MissingPayer)),
        Some(account) => match account_of(account) {
            Err(e) => Err(e),
            Ok(account_id) => match pb.transaction_valid_start {
                None => Err(Error::FromProtobuf(ProtobufFault::MissingValidStart)),
                Some(start) => Ok(
                    TransactionId {
                        account_id,
                        valid_start: Timestamp { seconds: start.seconds, nanos: start.nanos },
                    },
                ),
            },
        },
    }
}

impl AccountId {
    pub fn from_protobuf(pb: &WireAccountId) -> (res: Result<AccountId, Error>)
        ensures
            res == account_of(pb@),
    {
        match &pb.account {
            Some(WireAccount::AccountNum(num)) => Ok(
                AccountId {
                    shard: to_read_num(pb.shard_num),
                    realm: to_read_num(pb.realm_num),
                    num: to_read_num(*num),
                },
            ),
            Some(WireAccount::Alias(_)) => Err(Error::FromProtobuf(ProtobufFault::UnexpectedAlias)),
            None => Err(Error::FromProtobuf(ProtobufFault::MissingAccount)),
        }
    }
}

impl ContractId {
    pub fn from_protobuf(pb: &WireContractId) -> (res: Result<ContractId, Error>)
        ensures
            res == contract_of(pb@),
    {
        match &pb.contract {
            Some(WireContract::ContractNum(num)) => Ok(
                ContractId {
                    shard: to_read_num(pb.shard_num),
                    realm: to_read_num(pb.realm_num),
                    num: to_read_num(*num),
                },
            ),
            Some(WireContract::EvmAddress(_)) => Err(
                Error::FromProtobuf(ProtobufFault::UnexpectedEvmAddress),
            ),
            None => Err(Error::FromProtobuf(ProtobufFault::MissingContract)),
        }
    }
}

impl FileId {
    pub fn from_protobuf(pb: &WireFileId) -> (id: FileId)
        ensures
            id == file_of(*pb),
    {
        FileId {
            shard: to_read_num(pb.shard_num),
            realm: to_read_num(pb.realm_num),
            num: to_read_num(pb.file_num),
        }
    }
}

impl TransactionId {
    pub fn from_protobuf(pb: &WireTransactionId) -> (res: Result<TransactionId, Error>)
        ensures
            res == transaction_of(pb@),
    {
        let account_id = match &pb.account_id {
            None => {
                return Err(Error::FromProtobuf(ProtobufFault::MissingPayer));
            },
            Some(account) => match AccountId::from_protobuf(account) {
                Err(e) => {
                    return Err(e);
                },
                Ok(id) => id,
            },
        };
        match &pb.transaction_valid_start {
            None => Err(Error::FromProtobuf(ProtobufFault::MissingValidStart)),
            Some(start) => Ok(
                TransactionId {
                    account_id,
                    valid_start: Timestamp { seconds: start.seconds, nanos: start.nanos },
                },
            ),
        }
    }
}

/// Every identifier that is sent comes back as it was: reading the wire form
/// of an account, a contract, a file or a submission gives the value that
/// was rendered.
pub proof fn lemma_identifier_round_trip(
    account: AccountId,
    contract: ContractId,
    file: FileId,
    transaction: TransactionId,
)
    ensures
        account_of(account.wire()) == Ok::<AccountId, Error>(account),
        contract_of(contract.wire()) == Ok::<ContractId, Error>(contract),
        file_of(file.wire()) == file,
        transaction_of(transaction.wire()) == Ok::<TransactionId, Error>(transaction),
{
    lemma_num_round_trip(account.shard);
    lemma_num_round_trip(account.realm);
    lemma_num_round_trip(account.num);
    lemma_num_round_trip(contract.shard);
    lemma_num_round_trip(contract.realm);
    lemma_num_round_trip(contract.num);
    lemma_num_round_trip(file.shard);
    lemma_num_round_trip(file.realm);
    lemma_num_round_trip(file.num);
    lemma_num_round_trip(transaction.account_id.shard);
    lemma_num_round_trip(transaction.account_id.realm);
    lemma_num_round_trip(transaction.account_id.num);
}

/// A receipt as the wire holds it.
#[derive(Clone, Debug, PartialEq, Eq)]
pub struct WireReceipt {
    pub status: i32,
    pub account_id: Option<WireAccountId>,
    pub file_id: Option<WireFileId>,
    pub contract_id: Option<WireContractId>,
}

pub struct WireReceiptView {
    pub status: i32,
    pub account_id: Option<WireAccountIdView>,
    pub file_id: Option<WireFileId>,
    pub contract_id: Option<WireContractIdView>,
}

impl View for WireReceipt {
    type V = WireReceiptView;

    open spec fn view(&self) -> WireReceiptView {
        WireReceiptView {
            status: self.status,
            account_id: match self.account_id {
                Some(a) => Some(a@),
                None => None,
            },
            file_id: self.file_id,
            contract_id: match self.contract_id {
                Some(c) => Some(c@),
                None => None,
            },
        }
    }
}

/// The receipt that a wire receipt stands for, if every identifier in it
/// can be read.
pub open spec fn receipt_of(pb: WireReceiptView) -> Result<Receipt, Error> {
    let account = match pb.account_id {
        Some(a) => match account_of(a) {
            Ok(id) => Ok(Some(id)),
            Err(e) => Err(e),
        },
        None => Ok(None),
    };
    let contract = match pb.contract_id {
        Some(c) => match contract_of(c) {
            Ok(id) => Ok(Some(id)),
            Err(e) => Err(e),
        },
        None => Ok(None),
    };
    let file = match pb.file_id {
        Some(f) => Some(file_of(f)),
        None => None,
    };
    match account {
        Err(e) => Err(e),
        Ok(account_id) => match contract {
            Err(e) => Err(e),
            Ok(contract_id) => Ok(
                Receipt { status: pb.status, account_id, file_id: file, contract_id },
            ),
        },
    }
}

impl Receipt {
    pub fn from_protobuf(pb: &WireReceipt) -> (res: Result<Receipt, Error>)
        ensures
            res == receipt_of(pb@),
    {
        let account_id = match &pb.account_id {
            Some(a) => match AccountId::from_protobuf(a) {
                Ok(id) => Some(id),
                Err(e) => {
                    return Err(e);
                },
            },
            None => None,
        };
        let contract_id = match &pb.contract_id {
            Some(c) => match ContractId::from_protobuf(c) {
                Ok(id) => Some(id),
                Err(e) => {
                    return Err(e);
                },
            },
            None => None,
        };
        let file_id = match &pb.file_id {
            Some(f) => Some(FileId::from_protobuf(f)),
            None => None,
        };
        Ok(Receipt { status: pb.status, account_id, file_id, contract_id })
    }
}

/// The record of a transaction as the wire holds it.
#[derive(Clone, Debug, PartialEq, Eq)]
pub struct WireRecord {
    pub receipt: Option<WireReceipt>,
    pub transaction_id: Option<WireTransactionId>,
    pub transaction_fee: u64,
}

pub struct WireRecordView {
    pub receipt: Option<WireReceiptView>,
    pub transaction_id: Option<WireTransactionIdView>,
    pub transaction_fee: u64,
}

impl View for WireRecord {
    type V = WireRecordView;

    open spec fn view(&self) -> WireRecordView {
        WireRecordView {
            receipt: match self.receipt {
                Some(r) => Some(r@),
                None => None,
            },
            transaction_id: match self.transaction_id {
                Some(t) => Some(t@),
                None => None,
            },
            transaction_fee: self.transaction_fee,
        }
    }
}

/// The record of a transaction: what became of it and what it cost.
#[derive(Clone, Copy, Debug, PartialEq, Eq, Structural)]
pub struct TransactionRecord {
    pub receipt: Receipt,
    pub transaction_id: TransactionId,
    pub transaction_fee: u64,
}

/// The record that a wire record stands for: it must hold a receipt and
/// the identifier of its transaction.
pub open spec fn record_of(pb: WireRecordView) -> Result<TransactionRecord, Error> {
    match pb.receipt {
        None => Err(Error::FromProtobuf(ProtobufFault::MissingReceipt)),
        Some(r) => match receipt_of(r) {
            Err(e) => Err(e),
            Ok(receipt) => match pb.transaction_id {
                None => Err(Error::FromProtobuf(ProtobufFault::MissingTransactionId)),
                Some(t) => match transaction_of(t) {
                    Err(e) => Err(e),
                    Ok(transaction_id) => Ok(
                        TransactionRecord {
                            receipt,
                            transaction_id,
                            transaction_fee: pb.transaction_fee,
                        },
                    ),
                },
            },
        },
    }
}

impl TransactionRecord {
    pub fn from_protobuf(pb: &WireRecord) -> (res: Result<TransactionRecord, Error>)
        ensures
            res == record_of(pb@),
    {
        let receipt = match &pb.receipt {
            None => {
                return Err(Error::FromProtobuf(ProtobufFault::MissingReceipt));
            },
            Some(r) => match Receipt::from_protobuf(r) {
                Err(e) => {
                    return Err(e);
                },
                Ok(receipt) => receipt,
            },
        };
        match &pb.transaction_id {
            None => Err(Error::FromProtobuf(ProtobufFault::MissingTransactionId)),
            Some(t) => match TransactionId::from_protobuf(t) {
                Err(e) => Err(e),
                Ok(transaction_id) => Ok(
                    TransactionRecord {
                        receipt,
                        transaction_id,
                        transaction_fee: pb.transaction_fee,
                    },
                ),
            },
        }
    }
}

/// The records that a list of wire records stands for, in the order of the
/// list; the error of the first record that cannot be read, if there is one.
pub open spec fn records_of(list: Seq<WireRecord>) -> Result<Seq<TransactionRecord>, Error>
    decreases list.len(),
{
    if list.len() == 0 {
        Ok(Seq::empty())
    } else {
        match records_of(list.drop_last()) {
            Err(e) => Err(e),
            Ok(front) => match record_of(list.last()@) {
                Err(e) => Err(e),
                Ok(record) => Ok(front.push(record)),
            },
        }
    }
}

/// Reads a list of wire records.
pub fn records_from_protobuf(list: &Vec<WireRecord>) -> (res: Result<Vec<TransactionRecord>, Error>)
    ensures
        match records_of(list@) {
            Ok(records) => res matches Ok(v) && v@ == records,
            Err(e) => res matches Err(err) && err == e,
        },
{
    let mut records: Vec<TransactionRecord> = Vec::new();
    let mut i: usize = 0;
    assert(list@.subrange(0, 0) =~= Seq::<WireRecord>::empty());
    while i < list.len()
        invariant
            i <= list.len(),
            records_of(list@.subrange(0, i as int)) == Ok::<Seq<TransactionRecord>, Error>(
                records@,
            ),
        decreases list.len() - i,
    {
        proof {
            let next = list@.subrange(0, i + 1);
            assert(next.drop_last() =~= list@.subrange(0, i as int));
            assert(next.last() == list@[i as int]);
        }
        match TransactionRecord::from_protobuf(&list[i]) {
            Err(e) => {
                proof {
                    lemma_records_fail(list@, i + 1);
                }
                return Err(e);
            },
            Ok(record) => {
                records.push(record);
            },
        }
        i = i + 1;
    }
    assert(list@.subrange(0, list.len() as int) =~= list@);
    Ok(records)
}

/// A list whose front cannot be read cannot be read, and fails as its
/// front does.
pub proof fn lemma_records_fail(list: Seq<WireRecord>, n: int)
    requires
        0 <= n <= list.len(),
        records_of(list.subrange(0, n)) is Err,
    ensures
        records_of(list) == records_of(list.subrange(0, n)),
    decreases list.len(),
{
    if n == list.len() {
        assert(list.subrange(0, n) =~= list);
    } else {
        assert(list.drop_last().subrange(0, n) =~= list.subrange(0, n));
        lemma_records_fail(list.drop_last(), n);
    }
}

/// The balance of an account.
#[derive(Clone, Copy, Debug, PartialEq, Eq, Structural)]
pub struct AccountBalance {
    pub account_id: AccountId,
    /// The balance in the smallest unit of the currency.
    pub hbars: u64,
}

/// The contents of a file.
#[derive(Clone, Debug, PartialEq, Eq)]
pub struct FileContentsResponse {
    pub file_id: FileId,
    pub contents: Vec<u8>,
}

/// The body of a response message: one variant for each kind of answer.
#[derive(Clone, Debug, PartialEq, Eq)]
pub enum ResponseBody {
    CryptogetAccountBalance { account_id: Option<WireAccountId>, balance: u64 },
    CryptoGetAccountRecords { records: Vec<WireRecord> },
    ContractGetBytecodeResponse { bytecode: Vec<u8> },
    FileGetContents { file_id: Option<WireFileId>, contents: Vec<u8> },
    TransactionGetReceipt { receipt: Option<WireReceipt> },
}

impl ResponseBody {
    pub open spec fn kind_of(self) -> ResponseKind {
        match self {
            ResponseBody::CryptogetAccountBalance { .. } => ResponseKind::CryptogetAccountBalance,
            ResponseBody::CryptoGetAccountRecords { .. } => ResponseKind::CryptoGetAccountRecords,
            ResponseBody::ContractGetBytecodeResponse { .. } => {
                ResponseKind::ContractGetBytecodeResponse
            },
            ResponseBody::FileGetContents { .. } => ResponseKind::FileGetContents,
            ResponseBody::TransactionGetReceipt { .. } => ResponseKind::TransactionGetReceipt,
        }
    }

    /// The kind of this answer.
    pub fn kind(&self) -> (kind: ResponseKind)
        ensures
            kind == self.kind_of(),
    {
        match self {
            ResponseBody::CryptogetAccountBalance { .. } => ResponseKind::CryptogetAccountBalance,
            ResponseBody::CryptoGetAccountRecords { .. } => ResponseKind::CryptoGetAccountRecords,
            ResponseBody::ContractGetBytecodeResponse { .. } => {
                ResponseKind::ContractGetBytecodeResponse
            },
            ResponseBody::FileGetContents { .. } => ResponseKind::FileGetContents,
            ResponseBody::TransactionGetReceipt { .. } => ResponseKind::TransactionGetReceipt,
        }
    }
}

/// The error of an answer of the wrong kind.
pub open spec fn unexpected(expected: ResponseKind, found: ResponseKind) -> Error {
    Error::FromProtobuf(ProtobufFault::UnexpectedResponse { expected, found })
}

/// Reads the answer to a query for the bytecode of a contract: the bytes, as
/// they came.
pub fn bytecode_from_protobuf(pb: ResponseBody) -> (res: Result<Vec<u8>, Error>)
    ensures
        match pb {
            ResponseBody::ContractGetBytecodeResponse { bytecode } => res == Ok::<Vec<u8>, Error>(
                bytecode,
            ),
            _ => res == Err::<Vec<u8>, Error>(
                unexpected(ResponseKind::ContractGetBytecodeResponse, pb.kind_of()),
            ),
        },
{
    match pb {
        ResponseBody::ContractGetBytecodeResponse { bytecode } => Ok(bytecode),
        other => Err(
            Error::FromProtobuf(
                ProtobufFault::UnexpectedResponse {
                    expected: ResponseKind::ContractGetBytecodeResponse,
                    found: other.kind(),
                },
            ),
        ),
    }
}

/// Reads the answer to a query for the records of an account.
pub fn account_records_from_protobuf(pb: ResponseBody) -> (res: Result<
    Vec<TransactionRecord>,
    Error,
>)
    ensures
        match pb {
            ResponseBody::CryptoGetAccountRecords { records } => match records_of(records@) {
                Ok(list) => res matches Ok(v) && v@ == list,
                Err(e) => res matches Err(err) && err == e,
            },
            _ => res matches Err(err) && err == unexpected(
                ResponseKind::CryptoGetAccountRecords,
                pb.kind_of(),
            ),
        },
{
    match pb {
        ResponseBody::CryptoGetAccountRecords { records } => records_from_protobuf(&records),
        other => Err(
            Error::FromProtobuf(
                ProtobufFault::UnexpectedResponse {
                    expected: ResponseKind::CryptoGetAccountRecords,
                    found: other.kind(),
                },
            ),
        ),
    }
}

/// Reads the answer to a query for the balance of an account.
pub fn account_balance_from_protobuf(pb: ResponseBody) -> (res: Result<AccountBalance, Error>)
    ensures
        match pb {
            ResponseBody::CryptogetAccountBalance { account_id, balance } => match account_id {
                None => res == Err::<AccountBalance, Error>(
                    Error::FromProtobuf(ProtobufFault::MissingAccount),
                ),
                Some(account) => match account_of(account@) {
                    Ok(id) => res == Ok::<AccountBalance, Error>(
                        AccountBalance { account_id: id, hbars: balance },
                    ),
                    Err(e) => res == Err::<AccountBalance, Error>(e),
                },
            },
            _ => res == Err::<AccountBalance, Error>(
                unexpected(ResponseKind::CryptogetAccountBalance, pb.kind_of()),
            ),
        },
{
    match pb {
        ResponseBody::CryptogetAccountBalance { account_id, balance } => match &account_id {
            None => Err(Error::FromProtobuf(ProtobufFault::MissingAccount)),
            Some(account) => match AccountId::from_protobuf(account) {
                Ok(id) => Ok(AccountBalance { account_id: id, hbars: balance }),
                Err(e) => Err(e),
            },
        },
        other => Err(
            Error::FromProtobuf(
                ProtobufFault::UnexpectedResponse {
                    expected: ResponseKind::CryptogetAccountBalance,
                    found: other.kind(),
                },
            ),
        ),
    }
}

/// Reads the answer to a query for the contents of a file. An answer that
/// names no file is taken to be about the file with the number zero.
pub fn file_contents_from_protobuf(pb: ResponseBody) -> (res: Result<FileContentsResponse, Error>)
    ensures
        match pb {
            ResponseBody::FileGetContents { file_id, contents } => res matches Ok(file)
                && file.contents == contents && file.file_id == match file_id {
                Some(id) => file_of(id),
                None => FileId { shard: 0, realm: 0, num: 0 },
            },
            _ => res matches Err(err) && err == unexpected(
                ResponseKind::FileGetContents,
                pb.kind_of(),
            ),
        },
{
    match pb {
        ResponseBody::FileGetContents { file_id, contents } => {
            let file_id = match &file_id {
                Some(id) => FileId::from_protobuf(id),
                None => FileId { shard: 0, realm: 0, num: 0 },
            };
            Ok(FileContentsResponse { file_id, contents })
        },
        other => Err(
            Error::FromProtobuf(
                ProtobufFault::UnexpectedResponse {
                    expected: ResponseKind::FileGetContents,
                    found: other.kind(),
                },
            ),
        ),
    }
}

/// Reads the answer to a query for the receipt of a transaction.
pub fn receipt_from_protobuf(pb: ResponseBody) -> (res: Result<Receipt, Error>)
    ensures
        match pb {
            ResponseBody::TransactionGetReceipt { receipt } => match receipt {
                None => res == Err::<Receipt, Error>(
                    Error::FromProtobuf(ProtobufFault::MissingReceipt),
                ),
                Some(r) => res == receipt_of(r@),
            },
            _ => res == Err::<Receipt, Error>(
                unexpected(ResponseKind::TransactionGetReceipt, pb.kind_of()),
            ),
        },
{
    match pb {
        ResponseBody::TransactionGetReceipt { receipt } => match &receipt {
            None => Err(Error::FromProtobuf(ProtobufFault::MissingReceipt)),
            Some(r) => Receipt::from_protobuf(r),
        },
        other => Err(
            Error::FromProtobuf(
                ProtobufFault::UnexpectedResponse {
                    expected: ResponseKind::TransactionGetReceipt,
                    found: other.kind(),
                },
            ),
        ),
    }
}

} // verus!
