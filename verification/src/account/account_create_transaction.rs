use vstd::prelude::*;
use crate::entity::{AccountId, TransactionId, ValidDuration};
use crate::error::Error;
use crate::message::{CryptoCreateBody, CryptoCreateBodyView, TransactionData, TransactionDataView};
use crate::transaction::{outcome_of, ToTransactionDataProtobuf, Transaction, TransactionExecute, TransactionMethod};
use crate::wire::WireDuration;

verus! {

/// Create a new account, paid for by the payer of the transaction.
pub type AccountCreateTransaction = Transaction<AccountCreateTransactionData>;

#[derive(Clone, Debug)]
pub struct AccountCreateTransactionData {
    /// The public key that must sign every transaction of the new account.
    pub key: Option<Vec<u8>>,
    /// The balance that the new account starts with, in the smallest unit.
    pub initial_balance: u64,
    /// Whether the account must sign what it receives.
    pub receiver_signature_required: bool,
    /// The period by which the account's expiry is extended on renewal.
    pub auto_renew_period: Option<ValidDuration>,
}

pub open spec fn bytes_view(bytes: Option<Vec<u8>>) -> Option<Seq<u8>> {
    match bytes {
        Some(b) => Some(b@),
        None => None,
    }
}

pub open spec fn duration_wire(duration: Option<ValidDuration>) -> Option<WireDuration> {
    match duration {
        Some(d) => Some(d.wire()),
        None => None,
    }
}

/// A copy of optional bytes.
pub fn copy_bytes(bytes: &Option<Vec<u8>>) -> (copy: Option<Vec<u8>>)
    ensures
        bytes_view(copy) == bytes_view(*bytes),
{
    match bytes {
        Some(b) => {
            let c = b.clone();
            assert(c@ =~= b@);
            Some(c)
        },
        None => None,
    }
}

impl AccountCreateTransactionData {
    pub open spec fn with_key(self, key: Vec<u8>) -> Self {
        AccountCreateTransactionData { key: Some(key), ..self }
    }

    pub open spec fn with_initial_balance(self, balance: u64) -> Self {
        AccountCreateTransactionData { initial_balance: balance, ..self }
    }
}

impl Default for AccountCreateTransactionData {
    fn default() -> (data: Self)
        ensures
            data.key is None,
            data.initial_balance == 0,
            !data.receiver_signature_required,
            data.auto_renew_period is None,
    {
        AccountCreateTransactionData {
            key: None,
            initial_balance: 0,
            receiver_signature_required: false,
            auto_renew_period: None,
        }
    }
}

impl AccountCreateTransaction {
    /// Sets the key of the new account.
    pub fn key(&mut self, key: Vec<u8>) -> (res: Result<&mut Self, Error>)
        ensures
            outcome_of(res) == old(self)@.with_body(
                old(self)@.body.with_data(old(self)@.body.data.with_key(key)),
            ),
            res matches Ok(ret) ==> *final(self) == *final(ret),
            res is Err ==> *final(self) == *old(self),
    {
        if self.is_frozen() {
            return Err(Error::InvalidState("transaction is frozen"));
        }
        self.body.data.key = Some(key);
        Ok(self)
    }

    /// Sets the balance that the new account starts with.
    pub fn initial_balance(&mut self, balance: u64) -> (res: Result<&mut Self, Error>)
        ensures
            outcome_of(res) == old(self)@.with_body(
                old(self)@.body.with_data(old(self)@.body.data.with_initial_balance(balance)),
            ),
            res matches Ok(ret) ==> *final(self) == *final(ret),
            res is Err ==> *final(self) == *old(self),
    {
        if self.is_frozen() {
            return Err(Error::InvalidState("transaction is frozen"));
        }
        self.body.data.initial_balance = balance;
        Ok(self)
    }
}

impl ToTransactionDataProtobuf for AccountCreateTransactionData {
    open spec fn transaction_data(
        &self,
        node_account_id: AccountId,
        transaction_id: TransactionId,
    ) -> TransactionDataView {
        TransactionDataView::CryptoCreateAccount(
            CryptoCreateBodyView {
                key: bytes_view(self.key),
                initial_balance: self.initial_balance,
                receiver_sig_required: self.receiver_signature_required,
                auto_renew_period: duration_wire(self.auto_renew_period),
            },
        )
    }

    fn to_transaction_data_protobuf(
        &self,
        node_account_id: AccountId,
        transaction_id: &TransactionId,
    ) -> (data: TransactionData) {
        let auto_renew_period = match &self.auto_renew_period {
            Some(d) => Some(d.to_protobuf()),
            None => None,
        };
        TransactionData::CryptoCreateAccount(
            CryptoCreateBody {
                key: copy_bytes(&self.key),
                initial_balance: self.initial_balance,
                receiver_sig_required: self.receiver_signature_required,
                auto_renew_period,
            },
        )
    }
}

impl TransactionExecute for AccountCreateTransactionData {
    open spec fn called_by(&self) -> TransactionMethod {
        TransactionMethod::CreateAccount
    }

    fn method(&self) -> (method: TransactionMethod) {
        TransactionMethod::CreateAccount
    }

    /// Creating an account may cost up to five units of the currency.
    open spec fn default_fee(&self) -> u64 {
        500_000_000
    }

    fn default_max_transaction_fee(&self) -> (fee: u64) {
        500_000_000
    }
}

} // verus!
