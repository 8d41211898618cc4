//! The generic query: a body of one kind, the nodes that may serve it and
//! the payment offered for the answer.

use vstd::prelude::*;
use vstd::std_specs::convert::FromSpecImpl;
use crate::entity::AccountId;
use crate::error::{BuildFault, Error, ProtobufFault, ResponseKind};
use crate::response::{unexpected, ResponseBody};
use crate::message::{QueryHeader, QueryHeaderView, QueryMessage, QueryMessageView, ResponseType};
use crate::account::account_balance_query::AccountBalanceQueryData;
use crate::account::account_records_query::AccountRecordsQueryData;
use crate::contract::contract_bytecode_query::ContractBytecodeQueryData;
use crate::file::file_contents_query::FileContentsQueryData;

verus! {

/// A query body that can render itself into a query message.
pub trait ToQueryProtobuf {
    /// The message that this body renders into under a header.
    spec fn query_message(&self, header: QueryHeaderView) -> QueryMessageView;

    fn to_query_protobuf(&self, header: QueryHeader) -> (msg: QueryMessage)
        ensures
            msg@ == self.query_message(header@),
    ;
}

/// The calls of the network that answer queries.
#[derive(Clone, Copy, Debug, PartialEq, Eq, Structural)]
pub enum QueryMethod {
    /// The balance call of the crypto service.
    CryptoGetBalance,
    /// The account records call of the crypto service.
    GetAccountRecords,
    /// The receipt call of the crypto service.
    GetTransactionReceipts,
    /// The bytecode call of the smart contract service.
    ContractGetBytecode,
    /// The file content call of the file service.
    GetFileContent,
}

/// What the execution of a kind of query depends on.
pub trait QueryExecute {
    /// The call of the network that answers this query.
    spec fn called_by(&self) -> QueryMethod;

    fn method(&self) -> (method: QueryMethod)
        ensures
            method == self.called_by(),
    ;

    /// Whether the network answers this query only against payment.
    spec fn payment_required(&self) -> bool;

    fn is_payment_required(&self) -> (required: bool)
        ensures
            required == self.payment_required(),
    ;

    /// The kind of answer that belongs to this query.
    spec fn answered_by(&self) -> ResponseKind;

    fn response_kind(&self) -> (kind: ResponseKind)
        ensures
            kind == self.answered_by(),
    ;
}

/// A query of kind `D`.
#[derive(Clone, Debug)]
pub struct Query<D> {
    pub data: D,
    /// The nodes that may serve this query, in the order in which they are
    /// tried; `None` for the nodes that the client knows.
    pub node_account_ids: Option<Vec<AccountId>>,
    /// The payment offered for the answer, already signed and encoded.
    pub payment: Option<Vec<u8>>,
}

pub open spec fn payment_view(payment: Option<Vec<u8>>) -> Option<Seq<u8>> {
    match payment {
        Some(bytes) => Some(bytes@),
        None => None,
    }
}

impl<D> Query<D> {
    /// A query around `data`, pinned to no node and without payment.
    pub fn with_data(data: D) -> (query: Self)
        ensures
            query.data == data,
            query.node_account_ids is None,
            query.payment is None,
    {
        Query { data, node_account_ids: None, payment: None }
    }

    /// Pins the query to these nodes, to be tried in this order.
    pub fn node_account_ids(&mut self, ids: Vec<AccountId>) -> (ret: &mut Self)
        ensures
            ret.data == old(self).data,
            ret.node_account_ids == Some(ids),
            ret.payment == old(self).payment,
            *final(self) == *final(ret),
    {
        self.node_account_ids = Some(ids);
        self
    }

    /// Attaches the signed payment for the answer.
    pub fn payment(&mut self, signed_payment: Vec<u8>) -> (ret: &mut Self)
        ensures
            ret.data == old(self).data,
            ret.node_account_ids == old(self).node_account_ids,
            ret.payment == Some(signed_payment),
            *final(self) == *final(ret),
    {
        self.payment = Some(signed_payment);
        self
    }
}

impl<D: Default> Query<D> {
    /// A query with the default body of its kind.
    pub fn new() -> (query: Self)
        ensures
            call_ensures(D::default, (), query.data),
            query.node_account_ids is None,
            query.payment is None,
    {
        Query { data: D::default(), node_account_ids: None, payment: None }
    }
}

impl<D: ToQueryProtobuf + QueryExecute> Query<D> {
    /// Whether the query lacks a payment that its kind requires.
    pub open spec fn lacks_payment(&self) -> bool {
        self.data.payment_required() && self.payment is None
    }

    /// The header that this query is sent under.
    pub open spec fn header(&self) -> QueryHeaderView {
        QueryHeaderView {
            payment: payment_view(self.payment),
            response_type: ResponseType::AnswerOnly,
        }
    }

    /// Renders the query for one attempt. A query is stateless, so each attempt
    /// gets a header of its own; all of them hold the same payment and ask
    /// for the answer only. A query that must be paid for and has no payment
    /// attached is not rendered.
    pub fn render(&self) -> (res: Result<QueryMessage, Error>)
        ensures
            self.lacks_payment() <==> res is Err,
            res matches Err(e) ==> e == (Error::Build {
                fault: BuildFault::PaymentRequired,
                transaction_id: None,
            }),
            res matches Ok(msg) ==> msg@ == self.data.query_message(self.header()),
    {
        let payment = match &self.payment {
            Some(bytes) => {
                let copy = bytes.clone();
                assert(copy@ =~= bytes@);
                Some(copy)
            },
            None => {
                if self.data.is_payment_required() {
                    return Err(
                        Error::Build { fault: BuildFault::PaymentRequired, transaction_id: None },
                    );
                }
                None
            },
        };
        let header = QueryHeader { payment, response_type: ResponseType::AnswerOnly };
        Ok(self.data.to_query_protobuf(header))
    }

    /// Checks that an answer is of the kind that belongs to this query.
    pub fn check_response(&self, response: &ResponseBody) -> (res: Result<(), Error>)
        ensures
            response.kind_of() == self.data.answered_by() <==> res is Ok,
            res matches Err(e) ==> e == unexpected(self.data.answered_by(), response.kind_of()),
    {
        let expected = self.data.response_kind();
        let found = response.kind();
        if expected == found {
            Ok(())
        } else {
            Err(Error::FromProtobuf(ProtobufFault::UnexpectedResponse { expected, found }))
        }
    }
}

/// Any query body of the closed set of kinds.
#[derive(Clone, Debug)]
pub enum AnyQueryData {
    AccountBalance(AccountBalanceQueryData),
    AccountRecords(AccountRecordsQueryData),
    ContractBytecode(ContractBytecodeQueryData),
    FileContents(FileContentsQueryData),
}

impl ToQueryProtobuf for AnyQueryData {
    open spec fn query_message(&self, header: QueryHeaderView) -> QueryMessageView {
        match *self {
            AnyQueryData::AccountBalance(data) => data.query_message(header),
            AnyQueryData::AccountRecords(data) => data.query_message(header),
            AnyQueryData::ContractBytecode(data) => data.query_message(header),
            AnyQueryData::FileContents(data) => data.query_message(header),
        }
    }

    fn to_query_protobuf(&self, header: QueryHeader) -> (msg: QueryMessage) {
        match self {
            AnyQueryData::AccountBalance(data) => data.to_query_protobuf(header),
            AnyQueryData::AccountRecords(data) => data.to_query_protobuf(header),
            AnyQueryData::ContractBytecode(data) => data.to_query_protobuf(header),
            AnyQueryData::FileContents(data) => data.to_query_protobuf(header),
        }
    }
}

impl QueryExecute for AnyQueryData {
    open spec fn called_by(&self) -> QueryMethod {
        match *self {
            AnyQueryData::AccountBalance(data) => data.called_by(),
            AnyQueryData::AccountRecords(data) => data.called_by(),
            AnyQueryData::ContractBytecode(data) => data.called_by(),
            AnyQueryData::FileContents(data) => data.called_by(),
        }
    }

    fn method(&self) -> (method: QueryMethod) {
        match self {
            AnyQueryData::AccountBalance(data) => data.method(),
            AnyQueryData::AccountRecords(data) => data.method(),
            AnyQueryData::ContractBytecode(data) => data.method(),
            AnyQueryData::FileContents(data) => data.method(),
        }
    }

    open spec fn payment_required(&self) -> bool {
        match *self {
            AnyQueryData::AccountBalance(data) => data.payment_required(),
            AnyQueryData::AccountRecords(data) => data.payment_required(),
            AnyQueryData::ContractBytecode(data) => data.payment_required(),
            AnyQueryData::FileContents(data) => data.payment_required(),
        }
    }

    fn is_payment_required(&self) -> (required: bool) {
        match self {
            AnyQueryData::AccountBalance(data) => data.is_payment_required(),
            AnyQueryData::AccountRecords(data) => data.is_payment_required(),
            AnyQueryData::ContractBytecode(data) => data.is_payment_required(),
            AnyQueryData::FileContents(data) => data.is_payment_required(),
        }
    }

    open spec fn answered_by(&self) -> ResponseKind {
        match *self {
            AnyQueryData::AccountBalance(data) => data.answered_by(),
            AnyQueryData::AccountRecords(data) => data.answered_by(),
            AnyQueryData::ContractBytecode(data) => data.answered_by(),
            AnyQueryData::FileContents(data) => data.answered_by(),
        }
    }

    fn response_kind(&self) -> (kind: ResponseKind) {
        match self {
            AnyQueryData::AccountBalance(data) => data.response_kind(),
            AnyQueryData::AccountRecords(data) => data.response_kind(),
            AnyQueryData::ContractBytecode(data) => data.response_kind(),
            AnyQueryData::FileContents(data) => data.response_kind(),
        }
    }
}

/// Any query that may be executed on the network.
pub type AnyQuery = Query<AnyQueryData>;

impl From<AccountBalanceQueryData> for AnyQueryData {
    fn from(data: AccountBalanceQueryData) -> (ret: Self) {
        AnyQueryData::AccountBalance(data)
    }
}

impl FromSpecImpl<AccountBalanceQueryData> for AnyQueryData {
    open spec fn obeys_from_spec() -> bool {
        true
    }

    open spec fn from_spec(data: AccountBalanceQueryData) -> Self {
        AnyQueryData::AccountBalance(data)
    }
}

} // verus!
