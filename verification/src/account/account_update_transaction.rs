use vstd::prelude::*;
use crate::account::account_create_transaction::{bytes_view, copy_bytes, duration_wire};
use crate::entity::{AccountId, TransactionId, ValidDuration};
use crate::error::Error;
use crate::message::{CryptoUpdateBody, CryptoUpdateBodyView, TransactionData, TransactionDataView};
use crate::transaction::{outcome_of, ToTransactionDataProtobuf, Transaction, TransactionExecute, TransactionMethod,
    DEFAULT_MAX_TRANSACTION_FEE};

verus! {

/// Change properties of an account. A field that is not set stays as it is.
pub type AccountUpdateTransaction = Transaction<AccountUpdateTransactionData>;

#[derive(Clone, Debug)]
pub struct AccountUpdateTransactionData {
    /// The account to change.
    pub account_id: Option<AccountId>,
    /// The new key of the account.
    pub key: Option<Vec<u8>>,
    /// Whether the account must sign what it receives.
    pub receiver_signature_required: Option<bool>,
    /// The period by which the account's expiry is extended on renewal.
    pub auto_renew_period: Option<ValidDuration>,
}

impl AccountUpdateTransactionData {
    pub open spec fn with_account_id(self, id: AccountId) -> Self {
        AccountUpdateTransactionData { account_id: Some(id), ..self }
    }

    pub open spec fn with_key(self, key: Vec<u8>) -> Self {
        AccountUpdateTransactionData { key: Some(key), ..self }
    }
}

impl Default for AccountUpdateTransactionData {
    fn default() -> (data: Self)
        ensures
            data.account_id is None,
            data.key is None,
            data.receiver_signature_required is None,
            data.auto_renew_period is None,
    {
        AccountUpdateTransactionData {
            account_id: None,
            key: None,
            receiver_signature_required: None,
            auto_renew_period: None,
        }
    }
}

impl AccountUpdateTransaction {
    /// Sets the account to change.
    pub fn account_id(&mut self, id: AccountId) -> (res: Result<&mut Self, Error>)
        ensures
            outcome_of(res) == old(self)@.with_body(
                old(self)@.body.with_data(old(self)@.body.data.with_account_id(id)),
            ),
            res matches Ok(ret) ==> *final(self) == *final(ret),
            res is Err ==> *final(self) == *old(self),
    {
        if self.is_frozen() {
            return Err(Error::InvalidState("transaction is frozen"));
        }
        self.body.data.account_id = Some(id);
        Ok(self)
    }

    /// Sets the new key of the account.
    pub fn key(&mut self, key: Vec<u8>) -> (res: Result<&mut Self, Error>)
        ensures
            outcome_of(res) == old(self)@.with_body(
                old(self)@.body.with_data(old(self)@.body.data.with_key(key)),
            ),
            res matches Ok(ret) ==> *final(self) == *final(ret),
            res is Err ==> *final(self) == *old(self),
    {
        if self.is_frozen() {
            return Err(Error::InvalidState("transaction is frozen"));
        }
        self.body.data.key = Some(key);
        Ok(self)
    }
}

impl ToTransactionDataProtobuf for AccountUpdateTransactionData {
    open spec fn transaction_data(
        &self,
        node_account_id: AccountId,
        transaction_id: TransactionId,
    ) -> TransactionDataView {
        TransactionDataView::CryptoUpdateAccount(
            CryptoUpdateBodyView {
                account_id_to_update: match self.account_id {
                    Some(id) => Some(id.wire()),
                    None => None,
                },
                key: bytes_view(self.key),
                receiver_sig_required: self.receiver_signature_required,
                auto_renew_period: duration_wire(self.auto_renew_period),
            },
        )
    }

    fn to_transaction_data_protobuf(
        &self,
        node_account_id: AccountId,
        transaction_id: &TransactionId,
    ) -> (data: TransactionData) {
        let account_id_to_update = match &self.account_id {
            Some(id) => Some(id.to_protobuf()),
            None => None,
        };
        let auto_renew_period = match &self.auto_renew_period {
            Some(d) => Some(d.to_protobuf()),
            None => None,
        };
        TransactionData::CryptoUpdateAccount(
            CryptoUpdateBody {
                account_id_to_update,
                key: copy_bytes(&self.key),
                receiver_sig_required: self.receiver_signature_required,
                auto_renew_period,
            },
        )
    }
}

impl TransactionExecute for AccountUpdateTransactionData {
    open spec fn called_by(&self) -> TransactionMethod {
        TransactionMethod::UpdateAccount
    }

    fn method(&self) -> (method: TransactionMethod) {
        TransactionMethod::UpdateAccount
    }

    open spec fn default_fee(&self) -> u64 {
        DEFAULT_MAX_TRANSACTION_FEE
    }

    fn default_max_transaction_fee(&self) -> (fee: u64) {
        DEFAULT_MAX_TRANSACTION_FEE
    }
}

} // verus!
