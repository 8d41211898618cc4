use vstd::prelude::*;
use crate::error::ResponseKind;
use vstd::std_specs::convert::FromSpecImpl;
use crate::entity::AccountId;
use crate::message::{QueryBody, QueryBodyView, QueryHeader, QueryHeaderView, QueryMessage,
    QueryMessageView};
use crate::query::{AnyQueryData, Query, QueryExecute, QueryMethod, ToQueryProtobuf};

verus! {

/// Get all the records for an account for any transfers into it and out of it,
/// that were above the threshold, during the last 25 hours.
pub type AccountRecordsQuery = Query<AccountRecordsQueryData>;

#[derive(Clone, Copy, Debug)]
pub struct AccountRecordsQueryData {
    pub account_id: Option<AccountId>,
}

impl Default for AccountRecordsQueryData {
    fn default() -> (data: Self)
        ensures
            data.account_id is None,
    {
        AccountRecordsQueryData { account_id: None }
    }
}

impl From<AccountRecordsQueryData> for AnyQueryData {
    fn from(data: AccountRecordsQueryData) -> (ret: Self) {
        AnyQueryData::AccountRecords(data)
    }
}

impl FromSpecImpl<AccountRecordsQueryData> for AnyQueryData {
    open spec fn obeys_from_spec() -> bool {
        true
    }

    open spec fn from_spec(data: AccountRecordsQueryData) -> Self {
        AnyQueryData::AccountRecords(data)
    }
}

impl AccountRecordsQuery {
    /// Sets the account ID for which the records should be retrieved.
    pub fn account_id(&mut self, id: AccountId) -> (ret: &mut Self)
        ensures
            ret.data.account_id == Some(id),
            ret.node_account_ids == old(self).node_account_ids,
            ret.payment == old(self).payment,
            *final(self) == *final(ret),
    {
        self.data.account_id = Some(id.into());
        self
    }
}

impl ToQueryProtobuf for AccountRecordsQueryData {
    open spec fn query_message(&self, header: QueryHeaderView) -> QueryMessageView {
        QueryMessageView {
            query: Some(
                QueryBodyView::CryptoGetAccountRecords {
                    account_id: match self.account_id {
                        Some(id) => Some(id.wire()),
                        None => None,
                    },
                    header: Some(header),
                },
            ),
        }
    }

    fn to_query_protobuf(&self, header: QueryHeader) -> (msg: QueryMessage) {
        let account_id = match &self.account_id {
            Some(id) => Some(id.to_protobuf()),
            None => None,
        };
        QueryMessage {
            query: Some(QueryBody::CryptoGetAccountRecords { account_id, header: Some(header) }),
        }
    }
}

impl QueryExecute for AccountRecordsQueryData {
    open spec fn called_by(&self) -> QueryMethod {
        QueryMethod::GetAccountRecords
    }

    fn method(&self) -> (method: QueryMethod) {
        QueryMethod::GetAccountRecords
    }

    open spec fn payment_required(&self) -> bool {
        true
    }

    fn is_payment_required(&self) -> (required: bool) {
        true
    }

    open spec fn answered_by(&self) -> ResponseKind {
        ResponseKind::CryptoGetAccountRecords
    }

    fn response_kind(&self) -> (kind: ResponseKind) {
        ResponseKind::CryptoGetAccountRecords
    }
}

} // verus!
