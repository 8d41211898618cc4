use vstd::prelude::*;
use crate::error::ResponseKind;
use crate::entity::{AccountIdOrAlias, ContractIdOrEvmAddress};
use crate::message::{BalanceSource, BalanceSourceView, QueryBody, QueryBodyView, QueryHeader,
    QueryHeaderView, QueryMessage, QueryMessageView};
use crate::query::{Query, QueryExecute, QueryMethod, ToQueryProtobuf};

verus! {

/// Get the balance of a cryptocurrency account.
///
/// This returns only the balance, so it is a smaller reply than a query for
/// the account's full information.
pub type AccountBalanceQuery = Query<AccountBalanceQueryData>;

/// Whose balance is asked for: an account or a contract, never both.
#[derive(Clone, Debug)]
pub enum AccountBalanceSource {
    Account(AccountIdOrAlias),
    Contract(ContractIdOrEvmAddress),
}

#[derive(Clone, Debug)]
pub struct AccountBalanceQueryData {
    pub source: Option<AccountBalanceSource>,
}

impl Default for AccountBalanceQueryData {
    fn default() -> (data: Self)
        ensures
            data.source is None,
    {
        AccountBalanceQueryData { source: None }
    }
}

impl AccountBalanceSource {
    /// The source as the wire names it.
    pub open spec fn wire(self) -> BalanceSourceView {
        match self {
            AccountBalanceSource::Account(id) => BalanceSourceView::AccountId(id.wire()),
            AccountBalanceSource::Contract(id) => BalanceSourceView::ContractId(id.wire()),
        }
    }
}

impl AccountBalanceQuery {
    /// Sets the account ID for which information is requested.
    ///
    /// This is mutually exclusive with `contract_id`: the later call wins.
    pub fn account_id<I: Into<AccountIdOrAlias>>(&mut self, id: I) -> (ret: &mut Self)
        ensures
            ret.data.source matches Some(AccountBalanceSource::Account(account))
                && call_ensures(<I as Into<AccountIdOrAlias>>::into, (id,), account),
            ret.node_account_ids == old(self).node_account_ids,
            ret.payment == old(self).payment,
            *final(self) == *final(ret),
    {
        self.data.source = Some(AccountBalanceSource::Account(id.into()));
        self
    }

    /// Sets the contract ID for which information is requested.
    ///
    /// This is mutually exclusive with `account_id`: the later call wins.
    pub fn contract_id(&mut self, id: ContractIdOrEvmAddress) -> (ret: &mut Self)
        ensures
            ret.data.source == Some(AccountBalanceSource::Contract(id)),
            ret.node_account_ids == old(self).node_account_ids,
            ret.payment == old(self).payment,
            *final(self) == *final(ret),
    {
        self.data.source = Some(AccountBalanceSource::Contract(id.into()));
        self
    }
}

impl ToQueryProtobuf for AccountBalanceQueryData {
    open spec fn query_message(&self, header: QueryHeaderView) -> QueryMessageView {
        QueryMessageView {
            query: Some(
                QueryBodyView::CryptogetAccountBalance {
                    balance_source: match self.source {
                        Some(source) => Some(source.wire()),
                        None => None,
                    },
                    header: Some(header),
                },
            ),
        }
    }

    fn to_query_protobuf(&self, header: QueryHeader) -> (msg: QueryMessage) {
        let source = match &self.source {
            Some(AccountBalanceSource::Account(id)) => Some(
                BalanceSource::AccountId(id.to_protobuf()),
            ),
            Some(AccountBalanceSource::Contract(id)) => Some(
                BalanceSource::ContractId(id.to_protobuf()),
            ),
            None => None,
        };
        QueryMessage {
            query: Some(
                QueryBody::CryptogetAccountBalance { balance_source: source, header: Some(header) },
            ),
        }
    }
}

impl QueryExecute for AccountBalanceQueryData {
    open spec fn called_by(&self) -> QueryMethod {
        QueryMethod::CryptoGetBalance
    }

    fn method(&self) -> (method: QueryMethod) {
        QueryMethod::CryptoGetBalance
    }

    open spec fn payment_required(&self) -> bool {
        false
    }

    fn is_payment_required(&self) -> (required: bool) {
        false
    }

    open spec fn answered_by(&self) -> ResponseKind {
        ResponseKind::CryptogetAccountBalance
    }

    fn response_kind(&self) -> (kind: ResponseKind) {
        ResponseKind::CryptogetAccountBalance
    }
}

} // verus!
