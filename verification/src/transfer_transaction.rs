use vstd::prelude::*;
use crate::entity::{AccountId, TransactionId};
use crate::error::Error;
use crate::message::{AccountAmount, AccountAmountView, CryptoTransferBody, CryptoTransferBodyView,
    TransactionData, TransactionDataView};
use crate::transaction::{ToTransactionDataProtobuf, Transaction, TransactionExecute, TransactionMethod, HBAR};

verus! {

/// Move value between accounts. The amounts of one transfer list add up to
/// zero; the network rejects a list that does not.
pub type TransferTransaction = Transaction<TransferTransactionData>;

/// One line of a transfer: the account and the signed amount that it
/// receives (positive) or pays (negative), in the smallest unit.
#[derive(Clone, Copy, Debug, PartialEq, Eq, Structural)]
pub struct HbarTransfer {
    pub account_id: AccountId,
    pub amount: i64,
    pub is_approval: bool,
}

#[derive(Clone, Debug)]
pub struct TransferTransactionData {
    pub hbar_transfers: Vec<HbarTransfer>,
}

impl HbarTransfer {
    /// The line as the wire holds it.
    pub open spec fn wire(self) -> AccountAmountView {
        AccountAmountView {
            account_id: Some(self.account_id.wire()),
            amount: self.amount,
            is_approval: self.is_approval,
        }
    }

    pub fn to_protobuf(&self) -> (pb: AccountAmount)
        ensures
            pb@ == self.wire(),
    {
        AccountAmount {
            account_id: Some(self.account_id.to_protobuf()),
            amount: self.amount,
            is_approval: self.is_approval,
        }
    }
}

impl Default for TransferTransactionData {
    fn default() -> (data: Self)
        ensures
            data.hbar_transfers@ == Seq::<HbarTransfer>::empty(),
    {
        TransferTransactionData { hbar_transfers: Vec::new() }
    }
}

impl TransferTransaction {
    /// Adds a line to the transfer list: `amount` to the account where it is
    /// positive, from the account where it is negative. The line goes to the
    /// end of the list and nothing else changes; a frozen transaction
    /// refuses it.
    pub fn hbar_transfer(&mut self, account_id: AccountId, amount: i64) -> (res: Result<
        &mut Self,
        Error,
    >)
        ensures
            old(self)@.is_frozen() <==> res is Err,
            res matches Err(e) ==> e == Error::InvalidState("transaction is frozen") && *final(self)
                == *old(self),
            res matches Ok(ret) ==> {
                &&& ret@.body.data.hbar_transfers@ == old(self)@.body.data.hbar_transfers@.push(
                    HbarTransfer { account_id, amount, is_approval: false },
                )
                &&& ret@.body == old(self)@.body.with_data(ret@.body.data)
                &&& ret@.signers == old(self)@.signers
                &&& *final(self) == *final(ret)
            },
    {
        if self.is_frozen() {
            return Err(Error::InvalidState("transaction is frozen"));
        }
        self.body.data.hbar_transfers.push(HbarTransfer { account_id, amount, is_approval: false });
        Ok(self)
    }
}

impl ToTransactionDataProtobuf for TransferTransactionData {
    open spec fn transaction_data(
        &self,
        node_account_id: AccountId,
        transaction_id: TransactionId,
    ) -> TransactionDataView {
        TransactionDataView::CryptoTransfer(
            CryptoTransferBodyView {
                account_amounts: Seq::new(
                    self.hbar_transfers@.len(),
                    |i: int| self.hbar_transfers@[i].wire(),
                ),
            },
        )
    }

    fn to_transaction_data_protobuf(
        &self,
        node_account_id: AccountId,
        transaction_id: &TransactionId,
    ) -> (data: TransactionData) {
        let mut account_amounts: Vec<AccountAmount> = Vec::new();
        let mut i: usize = 0;
        while i < self.hbar_transfers.len()
            invariant
                i <= self.hbar_transfers.len(),
                account_amounts@.len() == i,
                forall|j: int|
                    0 <= j < i ==> (#[trigger] account_amounts@[j])@
                        == self.hbar_transfers@[j].wire(),
            decreases self.hbar_transfers.len() - i,
        {
            account_amounts.push(self.hbar_transfers[i].to_protobuf());
            i = i + 1;
        }
        let body = CryptoTransferBody { account_amounts };
        assert(body@.account_amounts =~= Seq::new(
            self.hbar_transfers@.len(),
            |i: int| self.hbar_transfers@[i].wire(),
        ));
        TransactionData::CryptoTransfer(body)
    }
}

impl TransactionExecute for TransferTransactionData {
    open spec fn called_by(&self) -> TransactionMethod {
        TransactionMethod::CryptoTransfer
    }

    fn method(&self) -> (method: TransactionMethod) {
        TransactionMethod::CryptoTransfer
    }

    /// A transfer may cost up to one unit of the currency.
    open spec fn default_fee(&self) -> u64 {
        HBAR
    }

    fn default_max_transaction_fee(&self) -> (fee: u64) {
        HBAR
    }
}

} // verus!
