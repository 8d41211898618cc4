//! The query and transaction-body messages of the wire schema, as plain
//! values, each with its view.

use vstd::prelude::*;
use crate::wire::{WireAccountId, WireAccountIdView, WireContractId, WireContractIdView,
    WireFileId, WireDuration, WireTransactionId, WireTransactionIdView};

verus! {

/// What kind of answer a query asks for.
#[derive(Clone, Copy, Debug, PartialEq, Eq, Structural)]
pub enum ResponseType {
    AnswerOnly,
    AnswerStateProof,
    CostAnswer,
    CostAnswerStateProof,
}

/// The header that every query carries: the signed payment for the answer,
/// already encoded, and the kind of answer asked for.
#[derive(Clone, Debug, PartialEq, Eq)]
pub struct QueryHeader {
    pub payment: Option<Vec<u8>>,
    pub response_type: ResponseType,
}

pub struct QueryHeaderView {
    pub payment: Option<Seq<u8>>,
    pub response_type: ResponseType,
}

impl View for QueryHeader {
    type V = QueryHeaderView;

    open spec fn view(&self) -> QueryHeaderView {
        QueryHeaderView {
            payment: match self.payment {
                Some(bytes) => Some(bytes@),
                None => None,
            },
            response_type: self.response_type,
        }
    }
}

/// The account or contract whose balance is asked for.
#[derive(Clone, Debug, PartialEq, Eq)]
pub enum BalanceSource {
    AccountId(WireAccountId),
    ContractId(WireContractId),
}

pub enum BalanceSourceView {
    AccountId(WireAccountIdView),
    ContractId(WireContractIdView),
}

impl View for BalanceSource {
    type V = BalanceSourceView;

    open spec fn view(&self) -> BalanceSourceView {
        match *self {
            BalanceSource::AccountId(id) => BalanceSourceView::AccountId(id@),
            BalanceSource::ContractId(id) => BalanceSourceView::ContractId(id@),
        }
    }
}

/// The body of a query message: one variant for each kind of query.
#[derive(Clone, Debug, PartialEq, Eq)]
pub enum QueryBody {
    CryptogetAccountBalance { balance_source: Option<BalanceSource>, header: Option<QueryHeader> },
    CryptoGetAccountRecords { account_id: Option<WireAccountId>, header: Option<QueryHeader> },
    ContractGetBytecode { contract_id: Option<WireContractId>, header: Option<QueryHeader> },
    FileGetContents { file_id: Option<WireFileId>, header: Option<QueryHeader> },
    TransactionGetReceipt { transaction_id: Option<WireTransactionId>, header: Option<QueryHeader> },
}

pub enum QueryBodyView {
    CryptogetAccountBalance {
        balance_source: Option<BalanceSourceView>,
        header: Option<QueryHeaderView>,
    },
    CryptoGetAccountRecords { account_id: Option<WireAccountIdView>, header: Option<QueryHeaderView> },
    ContractGetBytecode { contract_id: Option<WireContractIdView>, header: Option<QueryHeaderView> },
    FileGetContents { file_id: Option<WireFileId>, header: Option<QueryHeaderView> },
    TransactionGetReceipt {
        transaction_id: Option<WireTransactionIdView>,
        header: Option<QueryHeaderView>,
    },
}

pub open spec fn header_view(header: Option<QueryHeader>) -> Option<QueryHeaderView> {
    match header {
        Some(h) => Some(h@),
        None => None,
    }
}

impl View for QueryBody {
    type V = QueryBodyView;

    open spec fn view(&self) -> QueryBodyView {
        match *self {
            QueryBody::CryptogetAccountBalance { balance_source, header } => {
                QueryBodyView::CryptogetAccountBalance {
                    balance_source: match balance_source {
                        Some(s) => Some(s@),
                        None => None,
                    },
                    header: header_view(header),
                }
            },
            QueryBody::CryptoGetAccountRecords { account_id, header } => {
                QueryBodyView::CryptoGetAccountRecords {
                    account_id: match account_id {
                        Some(a) => Some(a@),
                        None => None,
                    },
                    header: header_view(header),
                }
            },
            QueryBody::ContractGetBytecode { contract_id, header } => {
                QueryBodyView::ContractGetBytecode {
                    contract_id: match contract_id {
                        Some(c) => Some(c@),
                        None => None,
                    },
                    header: header_view(header),
                }
            },
            QueryBody::FileGetContents { file_id, header } => {
                QueryBodyView::FileGetContents { file_id, header: header_view(header) }
            },
            QueryBody::TransactionGetReceipt { transaction_id, header } => {
                QueryBodyView::TransactionGetReceipt {
                    transaction_id: match transaction_id {
                        Some(t) => Some(t@),
                        None => None,
                    },
                    header: header_view(header),
                }
            },
        }
    }
}

/// A query message: the envelope around one query body.
#[derive(Clone, Debug, PartialEq, Eq)]
pub struct QueryMessage {
    pub query: Option<QueryBody>,
}

pub struct QueryMessageView {
    pub query: Option<QueryBodyView>,
}

impl View for QueryMessage {
    type V = QueryMessageView;

    open spec fn view(&self) -> QueryMessageView {
        QueryMessageView {
            query: match self.query {
                Some(q) => Some(q@),
                None => None,
            },
        }
    }
}

/// The body of an account creation.
#[derive(Clone, Debug, PartialEq, Eq)]
pub struct CryptoCreateBody {
    pub key: Option<Vec<u8>>,
    pub initial_balance: u64,
    pub receiver_sig_required: bool,
    pub auto_renew_period: Option<WireDuration>,
}

pub struct CryptoCreateBodyView {
    pub key: Option<Seq<u8>>,
    pub initial_balance: u64,
    pub receiver_sig_required: bool,
    pub auto_renew_period: Option<WireDuration>,
}

impl View for CryptoCreateBody {
    type V = CryptoCreateBodyView;

    open spec fn view(&self) -> CryptoCreateBodyView {
        CryptoCreateBodyView {
            key: match self.key {
                Some(k) => Some(k@),
                None => None,
            },
            initial_balance: self.initial_balance,
            receiver_sig_required: self.receiver_sig_required,
            auto_renew_period: self.auto_renew_period,
        }
    }
}

/// The body of an account update.
#[derive(Clone, Debug, PartialEq, Eq)]
pub struct CryptoUpdateBody {
    pub account_id_to_update: Option<WireAccountId>,
    pub key: Option<Vec<u8>>,
    pub receiver_sig_required: Option<bool>,
    pub auto_renew_period: Option<WireDuration>,
}

pub struct CryptoUpdateBodyView {
    pub account_id_to_update: Option<WireAccountIdView>,
    pub key: Option<Seq<u8>>,
    pub receiver_sig_required: Option<bool>,
    pub auto_renew_period: Option<WireDuration>,
}

impl View for CryptoUpdateBody {
    type V = CryptoUpdateBodyView;

    open spec fn view(&self) -> CryptoUpdateBodyView {
        CryptoUpdateBodyView {
            account_id_to_update: match self.account_id_to_update {
                Some(a) => Some(a@),
                None => None,
            },
            key: match self.key {
                Some(k) => Some(k@),
                None => None,
            },
            receiver_sig_required: self.receiver_sig_required,
            auto_renew_period: self.auto_renew_period,
        }
    }
}

/// The body of an account deletion.
#[derive(Clone, Debug, PartialEq, Eq)]
pub struct CryptoDeleteBody {
    pub transfer_account_id: Option<WireAccountId>,
    pub delete_account_id: Option<WireAccountId>,
}

pub struct CryptoDeleteBodyView {
    pub transfer_account_id: Option<WireAccountIdView>,
    pub delete_account_id: Option<WireAccountIdView>,
}

impl View for CryptoDeleteBody {
    type V = CryptoDeleteBodyView;

    open spec fn view(&self) -> CryptoDeleteBodyView {
        CryptoDeleteBodyView {
            transfer_account_id: match self.transfer_account_id {
                Some(a) => Some(a@),
                None => None,
            },
            delete_account_id: match self.delete_account_id {
                Some(a) => Some(a@),
                None => None,
            },
        }
    }
}

/// One line of a transfer list: an account and the signed amount that it
/// receives (positive) or pays (negative).
#[derive(Clone, Debug, PartialEq, Eq)]
pub struct AccountAmount {
    pub account_id: Option<WireAccountId>,
    pub amount: i64,
    pub is_approval: bool,
}

pub struct AccountAmountView {
    pub account_id: Option<WireAccountIdView>,
    pub amount: i64,
    pub is_approval: bool,
}

impl View for AccountAmount {
    type V = AccountAmountView;

    open spec fn view(&self) -> AccountAmountView {
        AccountAmountView {
            account_id: match self.account_id {
                Some(a) => Some(a@),
                None => None,
            },
            amount: self.amount,
            is_approval: self.is_approval,
        }
    }
}

/// The body of a transfer: the lines of its transfer list, in order.
#[derive(Clone, Debug, PartialEq, Eq)]
pub struct CryptoTransferBody {
    pub account_amounts: Vec<AccountAmount>,
}

pub struct CryptoTransferBodyView {
    pub account_amounts: Seq<AccountAmountView>,
}

impl View for CryptoTransferBody {
    type V = CryptoTransferBodyView;

    open spec fn view(&self) -> CryptoTransferBodyView {
        CryptoTransferBodyView {
            account_amounts: Seq::new(
                self.account_amounts@.len(),
                |i: int| self.account_amounts@[i]@,
            ),
        }
    }
}

/// The data of a transaction body: one variant for each kind of transaction.
#[derive(Clone, Debug, PartialEq, Eq)]
pub enum TransactionData {
    CryptoCreateAccount(CryptoCreateBody),
    CryptoUpdateAccount(CryptoUpdateBody),
    CryptoDelete(CryptoDeleteBody),
    CryptoTransfer(CryptoTransferBody),
}

pub enum TransactionDataView {
    CryptoCreateAccount(CryptoCreateBodyView),
    CryptoUpdateAccount(CryptoUpdateBodyView),
    CryptoDelete(CryptoDeleteBodyView),
    CryptoTransfer(CryptoTransferBodyView),
}

impl View for TransactionData {
    type V = TransactionDataView;

    open spec fn view(&self) -> TransactionDataView {
        match *self {
            TransactionData::CryptoCreateAccount(b) => TransactionDataView::CryptoCreateAccount(b@),
            TransactionData::CryptoUpdateAccount(b) => TransactionDataView::CryptoUpdateAccount(b@),
            TransactionData::CryptoDelete(b) => TransactionDataView::CryptoDelete(b@),
            TransactionData::CryptoTransfer(b) => TransactionDataView::CryptoTransfer(b@),
        }
    }
}

/// The body of a transaction as it is signed and sent: the identifier of the
/// submission, the node it is addressed to, the fee and validity limits, the
/// memo, and the data of its kind.
#[derive(Clone, Debug, PartialEq, Eq)]
pub struct TransactionBodyMessage {
    pub transaction_id: Option<WireTransactionId>,
    pub node_account_id: Option<WireAccountId>,
    pub transaction_fee: u64,
    pub transaction_valid_duration: Option<WireDuration>,
    pub memo: String,
    pub data: Option<TransactionData>,
}

pub struct TransactionBodyMessageView {
    pub transaction_id: Option<WireTransactionIdView>,
    pub node_account_id: Option<WireAccountIdView>,
    pub transaction_fee: u64,
    pub transaction_valid_duration: Option<WireDuration>,
    pub memo: Seq<char>,
    pub data: Option<TransactionDataView>,
}

impl View for TransactionBodyMessage {
    type V = TransactionBodyMessageView;

    open spec fn view(&self) -> TransactionBodyMessageView {
        TransactionBodyMessageView {
            transaction_id: match self.transaction_id {
                Some(t) => Some(t@),
                None => None,
            },
            node_account_id: match self.node_account_id {
                Some(a) => Some(a@),
                None => None,
            },
            transaction_fee: self.transaction_fee,
            transaction_valid_duration: self.transaction_valid_duration,
            memo: self.memo@,
            data: match self.data {
                Some(d) => Some(d@),
                None => None,
            },
        }
    }
}

} // verus!
