use vstd::prelude::*;
use crate::error::ResponseKind;
use vstd::std_specs::convert::FromSpecImpl;
use crate::entity::ContractId;
use crate::message::{QueryBody, QueryBodyView, QueryHeader, QueryHeaderView, QueryMessage,
    QueryMessageView};
use crate::query::{AnyQueryData, Query, QueryExecute, QueryMethod, ToQueryProtobuf};

verus! {

/// Get the runtime bytecode for a smart contract instance.
pub type ContractBytecodeQuery = Query<ContractBytecodeQueryData>;

#[derive(Clone, Copy, Debug)]
pub struct ContractBytecodeQueryData {
    /// The contract for which information is requested.
    pub contract_id: Option<ContractId>,
}

impl Default for ContractBytecodeQueryData {
    fn default() -> (data: Self)
        ensures
            data.contract_id is None,
    {
        ContractBytecodeQueryData { contract_id: None }
    }
}

impl ContractBytecodeQuery {
    /// Sets the contract for which information is requested.
    pub fn contract_id(&mut self, contract_id: ContractId) -> (ret: &mut Self)
        ensures
            ret.data.contract_id == Some(contract_id),
            ret.node_account_ids == old(self).node_account_ids,
            ret.payment == old(self).payment,
            *final(self) == *final(ret),
    {
        self.data.contract_id = Some(contract_id);
        self
    }
}

impl From<ContractBytecodeQueryData> for AnyQueryData {
    fn from(data: ContractBytecodeQueryData) -> (ret: Self) {
        AnyQueryData::ContractBytecode(data)
    }
}

impl FromSpecImpl<ContractBytecodeQueryData> for AnyQueryData {
    open spec fn obeys_from_spec() -> bool {
        true
    }

    open spec fn from_spec(data: ContractBytecodeQueryData) -> Self {
        AnyQueryData::ContractBytecode(data)
    }
}

impl ToQueryProtobuf for ContractBytecodeQueryData {
    open spec fn query_message(&self, header: QueryHeaderView) -> QueryMessageView {
        QueryMessageView {
            query: Some(
                QueryBodyView::ContractGetBytecode {
                    contract_id: match self.contract_id {
                        Some(id) => Some(id.wire()),
                        None => None,
                    },
                    header: Some(header),
                },
            ),
        }
    }

    fn to_query_protobuf(&self, header: QueryHeader) -> (msg: QueryMessage) {
        let contract_id = match &self.contract_id {
            Some(id) => Some(id.to_protobuf()),
            None => None,
        };
        QueryMessage {
            query: Some(QueryBody::ContractGetBytecode { contract_id, header: Some(header) }),
        }
    }
}

impl QueryExecute for ContractBytecodeQueryData {
    open spec fn called_by(&self) -> QueryMethod {
        QueryMethod::ContractGetBytecode
    }

    fn method(&self) -> (method: QueryMethod) {
        QueryMethod::ContractGetBytecode
    }

    open spec fn payment_required(&self) -> bool {
        true
    }

    fn is_payment_required(&self) -> (required: bool) {
        true
    }

    open spec fn answered_by(&self) -> ResponseKind {
        ResponseKind::ContractGetBytecodeResponse
    }

    fn response_kind(&self) -> (kind: ResponseKind) {
        ResponseKind::ContractGetBytecodeResponse
    }
}

} // verus!
