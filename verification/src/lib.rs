//! Client-side request model and execution rules for a replicated ledger
//! network.
//!
//! A caller builds a typed request, a query or a transaction, and attaches
//! signers. The request is rendered into a wire payload for one node, sent,
//! and the node's answer is classified: accepted, to be tried again at the
//! same or at another node, or rejected for good. An accepted transaction is
//! followed by polls for its receipt, until the network has agreed on it.
//!
//! This library holds the requests and every decision of that path. It sends
//! nothing and waits for nothing: the state machines in `execute` say what
//! is to be done next, and the caller does it.

pub mod account;
pub mod contract;
pub mod entity;
pub mod error;
pub mod execute;
pub mod file;
pub mod message;
pub mod query;
pub mod response;
pub mod signer;
pub mod transaction;
pub mod transfer_transaction;
pub mod wire;

pub use account::account_balance_query::{AccountBalanceQuery, AccountBalanceQueryData};
pub use account::account_create_transaction::{
    AccountCreateTransaction, AccountCreateTransactionData,
};
pub use account::account_delete_transaction::{
    AccountDeleteTransaction, AccountDeleteTransactionData,
};
pub use account::account_records_query::{AccountRecordsQuery, AccountRecordsQueryData};
pub use account::account_update_transaction::{
    AccountUpdateTransaction, AccountUpdateTransactionData,
};
pub use contract::contract_bytecode_query::{ContractBytecodeQuery, ContractBytecodeQueryData};
pub use entity::{
    AccountAlias, AccountId, AccountIdOrAlias, ContractEvmAddress, ContractId,
    ContractIdOrEvmAddress, FileId, NodeIdentity, Timestamp, TransactionId, ValidDuration,
};
pub use error::Error;
pub use file::file_contents_query::{FileContentsQuery, FileContentsQueryData};
pub use query::{AnyQuery, AnyQueryData, Query};
pub use response::{AccountBalance, FileContentsResponse, TransactionRecord};
pub use transaction::any::{AnyTransaction, AnyTransactionData};
pub use transaction::Transaction;
pub use transfer_transaction::{TransferTransaction, TransferTransactionData};
