//! What can go wrong while a request is built, sent and confirmed.

use vstd::prelude::*;
use crate::entity::{AccountId, TransactionId};

verus! {

/// Why a request could not be built. Such a request is never sent.
#[derive(Clone, Copy, Debug, PartialEq, Eq, Structural)]
pub enum BuildFault {
    /// No node is eligible to serve the request.
    NoNodes,
    /// The query must be paid for and no payment is attached.
    PaymentRequired,
    /// A transaction has no identifier and none can be made: no payer is known.
    MissingTransactionId,
    /// The retry policy allows no attempt at all.
    InvalidPolicy,
}

/// The kinds of answer that the network gives to queries.
#[derive(Clone, Copy, Debug, PartialEq, Eq, Structural)]
pub enum ResponseKind {
    CryptogetAccountBalance,
    CryptoGetAccountRecords,
    ContractGetBytecodeResponse,
    FileGetContents,
    TransactionGetReceipt,
}

/// Why an answer of the network could not be read.
#[derive(Clone, Copy, Debug, PartialEq, Eq, Structural)]
pub enum ProtobufFault {
    /// The answer is of another kind than the query asks for.
    UnexpectedResponse { expected: ResponseKind, found: ResponseKind },
    /// The answer names an account by an alias where a number is needed.
    UnexpectedAlias,
    /// The answer names a contract by an address where a number is needed.
    UnexpectedEvmAddress,
    /// The answer lacks the account of an identifier.
    MissingAccount,
    /// The answer lacks the contract of an identifier.
    MissingContract,
    /// The answer lacks the paying account of a transaction identifier.
    MissingPayer,
    /// The answer lacks the start of a transaction identifier.
    MissingValidStart,
    /// The answer lacks a receipt.
    MissingReceipt,
    /// A record lacks the identifier of its transaction.
    MissingTransactionId,
}

/// What the last attempt of an execution ran into.
#[derive(Clone, Copy, Debug, PartialEq, Eq, Structural)]
pub enum AttemptFault {
    /// The node could not be reached, or did not answer in time.
    Unreachable,
    /// The node was too busy to take the request.
    Busy,
    /// The node answered with a status that may pass.
    Transient(i32),
}

#[derive(Clone, Debug, PartialEq, Eq)]
pub enum Error {
    /// The request is invalid or incomplete. It was not sent.
    Build { fault: BuildFault, transaction_id: Option<TransactionId> },
    /// The operation is not allowed in the state the request is in.
    InvalidState(&'static str),
    /// The deadline passed, or no node was left to try, before any node
    /// accepted the request.
    Timeout { last: Option<AttemptFault>, node: AccountId, transaction_id: Option<TransactionId> },
    /// The network rejected the request for a reason that no retry can mend.
    TerminalStatus { status: i32, node: AccountId, transaction_id: Option<TransactionId> },
    /// The transaction reached consensus and failed there.
    ReceiptStatus { status: i32, transaction_id: TransactionId },
    /// The deadline passed while the receipt was still pending. Polling again
    /// later is safe; the transaction need not be sent again.
    ReceiptUnavailable { transaction_id: TransactionId },
    /// An answer of the network could not be read.
    FromProtobuf(ProtobufFault),
    /// A stored request names a kind that this version does not know.
    UnknownVariant(String),
}

/// The message of the error that a frozen transaction answers a change with.
pub open spec fn frozen_message() -> Seq<char> {
    "transaction is frozen"@
}

} // verus!
