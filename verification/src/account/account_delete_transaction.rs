use vstd::prelude::*;
use crate::entity::{AccountId, TransactionId};
use crate::error::Error;
use crate::message::{CryptoDeleteBody, CryptoDeleteBodyView, TransactionData, TransactionDataView};
use crate::transaction::{outcome_of, ToTransactionDataProtobuf, Transaction, TransactionExecute, TransactionMethod,
    DEFAULT_MAX_TRANSACTION_FEE};

verus! {

/// Mark an account as deleted and move its balance to another account.
pub type AccountDeleteTransaction = Transaction<AccountDeleteTransactionData>;

#[derive(Clone, Copy, Debug)]
pub struct AccountDeleteTransactionData {
    /// The account that receives the remaining balance.
    pub transfer_account_id: Option<AccountId>,
    /// The account to delete.
    pub delete_account_id: Option<AccountId>,
}

impl AccountDeleteTransactionData {
    pub open spec fn with_transfer_account_id(self, id: AccountId) -> Self {
        AccountDeleteTransactionData { transfer_account_id: Some(id), ..self }
    }

    pub open spec fn with_delete_account_id(self, id: AccountId) -> Self {
        AccountDeleteTransactionData { delete_account_id: Some(id), ..self }
    }
}

impl Default for AccountDeleteTransactionData {
    fn default() -> (data: Self)
        ensures
            data.transfer_account_id is None,
            data.delete_account_id is None,
    {
        AccountDeleteTransactionData { transfer_account_id: None, delete_account_id: None }
    }
}

impl AccountDeleteTransaction {
    /// Sets the account that receives the remaining balance.
    pub fn transfer_account_id(&mut self, id: AccountId) -> (res: Result<&mut Self, Error>)
        ensures
            outcome_of(res) == old(self)@.with_body(
                old(self)@.body.with_data(old(self)@.body.data.with_transfer_account_id(id)),
            ),
            res matches Ok(ret) ==> *final(self) == *final(ret),
            res is Err ==> *final(self) == *old(self),
    {
        if self.is_frozen() {
            return Err(Error::InvalidState("transaction is frozen"));
        }
        self.body.data.transfer_account_id = Some(id);
        Ok(self)
    }

    /// Sets the account to delete.
    pub fn delete_account_id(&mut self, id: AccountId) -> (res: Result<&mut Self, Error>)
        ensures
            outcome_of(res) == old(self)@.with_body(
                old(self)@.body.with_data(old(self)@.body.data.with_delete_account_id(id)),
            ),
            res matches Ok(ret) ==> *final(self) == *final(ret),
            res is Err ==> *final(self) == *old(self),
    {
        if self.is_frozen() {
            return Err(Error::InvalidState("transaction is frozen"));
        }
        self.body.data.delete_account_id = Some(id);
        Ok(self)
    }
}

impl ToTransactionDataProtobuf for AccountDeleteTransactionData {
    open spec fn transaction_data(
        &self,
        node_account_id: AccountId,
        transaction_id: TransactionId,
    ) -> TransactionDataView {
        TransactionDataView::CryptoDelete(
            CryptoDeleteBodyView {
                transfer_account_id: match self.transfer_account_id {
                    Some(id) => Some(id.wire()),
                    None => None,
                },
                delete_account_id: match self.delete_account_id {
                    Some(id) => Some(id.wire()),
                    None => None,
                },
            },
        )
    }

    fn to_transaction_data_protobuf(
        &self,
        node_account_id: AccountId,
        transaction_id: &TransactionId,
    ) -> (data: TransactionData) {
        let transfer_account_id = match &self.transfer_account_id {
            Some(id) => Some(id.to_protobuf()),
            None => None,
        };
        let delete_account_id = match &self.delete_account_id {
            Some(id) => Some(id.to_protobuf()),
            None => None,
        };
        TransactionData::CryptoDelete(CryptoDeleteBody { transfer_account_id, delete_account_id })
    }
}

impl TransactionExecute for AccountDeleteTransactionData {
    open spec fn called_by(&self) -> TransactionMethod {
        TransactionMethod::CryptoDelete
    }

    fn method(&self) -> (method: TransactionMethod) {
        TransactionMethod::CryptoDelete
    }

    open spec fn default_fee(&self) -> u64 {
        DEFAULT_MAX_TRANSACTION_FEE
    }

    fn default_max_transaction_fee(&self) -> (fee: u64) {
        DEFAULT_MAX_TRANSACTION_FEE
    }
}

} // verus!
