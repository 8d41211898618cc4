//! Any transaction of the closed set of kinds, and the form in which a
//! transaction is stored outside the program.
//!
//! The set of kinds is closed on purpose: a stored transaction names its
//! kind by a tag, and a tag that this version does not know is an error, not
//! something to skip.

use vstd::prelude::*;
use vstd::std_specs::convert::FromSpecImpl;
use crate::account::account_create_transaction::AccountCreateTransactionData;
use crate::account::account_delete_transaction::AccountDeleteTransactionData;
use crate::account::account_update_transaction::AccountUpdateTransactionData;
use crate::entity::{AccountId, TransactionId, ValidDuration};
use crate::error::Error;
use crate::message::{TransactionData, TransactionDataView};
use crate::signer::SignerSet;
use crate::transaction::{ToTransactionDataProtobuf, Transaction, TransactionBody,
    TransactionExecute, TransactionMethod, TransactionModel};
use crate::transfer_transaction::TransferTransactionData;

verus! {

/// Any possible transaction that may be executed on the network.
pub type AnyTransaction = Transaction<AnyTransactionData>;

#[derive(Clone, Debug)]
pub enum AnyTransactionData {
    AccountCreate(AccountCreateTransactionData),
    AccountUpdate(AccountUpdateTransactionData),
    AccountDelete(AccountDeleteTransactionData),
    Transfer(TransferTransactionData),
}

/// The kinds of transaction, without their data.
#[derive(Clone, Copy, Debug, PartialEq, Eq, Structural, Hash)]
pub enum TransactionKind {
    AccountCreate,
    AccountUpdate,
    AccountDelete,
    Transfer,
}

impl ToTransactionDataProtobuf for AnyTransactionData {
    open spec fn transaction_data(
        &self,
        node_account_id: AccountId,
        transaction_id: TransactionId,
    ) -> TransactionDataView {
        match *self {
            AnyTransactionData::Transfer(transaction) => transaction.transaction_data(
                node_account_id,
                transaction_id,
            ),
            AnyTransactionData::AccountCreate(transaction) => transaction.transaction_data(
                node_account_id,
                transaction_id,
            ),
            AnyTransactionData::AccountUpdate(transaction) => transaction.transaction_data(
                node_account_id,
                transaction_id,
            ),
            AnyTransactionData::AccountDelete(transaction) => transaction.transaction_data(
                node_account_id,
                transaction_id,
            ),
        }
    }

    fn to_transaction_data_protobuf(
        &self,
        node_account_id: AccountId,
        transaction_id: &TransactionId,
    ) -> (data: TransactionData) {
        match self {
            AnyTransactionData::Transfer(transaction) => {
                transaction.to_transaction_data_protobuf(node_account_id, transaction_id)
            },
            AnyTransactionData::AccountCreate(transaction) => {
                transaction.to_transaction_data_protobuf(node_account_id, transaction_id)
            },
            AnyTransactionData::AccountUpdate(transaction) => {
                transaction.to_transaction_data_protobuf(node_account_id, transaction_id)
            },
            AnyTransactionData::AccountDelete(transaction) => {
                transaction.to_transaction_data_protobuf(node_account_id, transaction_id)
            },
        }
    }
}

impl TransactionExecute for AnyTransactionData {
    open spec fn called_by(&self) -> TransactionMethod {
        match *self {
            AnyTransactionData::AccountCreate(transaction) => transaction.called_by(),
            AnyTransactionData::AccountUpdate(transaction) => transaction.called_by(),
            AnyTransactionData::AccountDelete(transaction) => transaction.called_by(),
            AnyTransactionData::Transfer(transaction) => transaction.called_by(),
        }
    }

    fn method(&self) -> (method: TransactionMethod) {
        match self {
            AnyTransactionData::AccountCreate(transaction) => transaction.method(),
            AnyTransactionData::AccountUpdate(transaction) => transaction.method(),
            AnyTransactionData::AccountDelete(transaction) => transaction.method(),
            AnyTransactionData::Transfer(transaction) => transaction.method(),
        }
    }

    open spec fn default_fee(&self) -> u64 {
        match *self {
            AnyTransactionData::Transfer(transaction) => transaction.default_fee(),
            AnyTransactionData::AccountCreate(transaction) => transaction.default_fee(),
            AnyTransactionData::AccountUpdate(transaction) => transaction.default_fee(),
            AnyTransactionData::AccountDelete(transaction) => transaction.default_fee(),
        }
    }

    fn default_max_transaction_fee(&self) -> (fee: u64) {
        match self {
            AnyTransactionData::Transfer(transaction) => transaction.default_max_transaction_fee(),
            AnyTransactionData::AccountCreate(transaction) => {
                transaction.default_max_transaction_fee()
            },
            AnyTransactionData::AccountUpdate(transaction) => {
                transaction.default_max_transaction_fee()
            },
            AnyTransactionData::AccountDelete(transaction) => {
                transaction.default_max_transaction_fee()
            },
        }
    }
}

impl AnyTransactionData {
    /// The kind of this transaction.
    pub open spec fn kind_of(self) -> TransactionKind {
        match self {
            AnyTransactionData::AccountCreate(_) => TransactionKind::AccountCreate,
            AnyTransactionData::AccountUpdate(_) => TransactionKind::AccountUpdate,
            AnyTransactionData::AccountDelete(_) => TransactionKind::AccountDelete,
            AnyTransactionData::Transfer(_) => TransactionKind::Transfer,
        }
    }

    pub fn kind(&self) -> (kind: TransactionKind)
        ensures
            kind == self.kind_of(),
    {
        match self {
            AnyTransactionData::AccountCreate(_) => TransactionKind::AccountCreate,
            AnyTransactionData::AccountUpdate(_) => TransactionKind::AccountUpdate,
            AnyTransactionData::AccountDelete(_) => TransactionKind::AccountDelete,
            AnyTransactionData::Transfer(_) => TransactionKind::Transfer,
        }
    }
}

/// The kind that a tag names, if it names one.
pub open spec fn kind_of_tag(tag: Seq<char>) -> Option<TransactionKind> {
    if tag == "accountCreate"@ {
        Some(TransactionKind::AccountCreate)
    } else if tag == "accountUpdate"@ {
        Some(TransactionKind::AccountUpdate)
    } else if tag == "accountDelete"@ {
        Some(TransactionKind::AccountDelete)
    } else if tag == "transfer"@ {
        Some(TransactionKind::Transfer)
    } else {
        None
    }
}

impl TransactionKind {
    /// The tag that names this kind in the stored form.
    pub open spec fn tag_of(self) -> Seq<char> {
        match self {
            TransactionKind::AccountCreate => "accountCreate"@,
            TransactionKind::AccountUpdate => "accountUpdate"@,
            TransactionKind::AccountDelete => "accountDelete"@,
            TransactionKind::Transfer => "transfer"@,
        }
    }

    pub fn tag(&self) -> (tag: &'static str)
        ensures
            tag@ == self.tag_of(),
    {
        match self {
            TransactionKind::AccountCreate => "accountCreate",
            TransactionKind::AccountUpdate => "accountUpdate",
            TransactionKind::AccountDelete => "accountDelete",
            TransactionKind::Transfer => "transfer",
        }
    }

    /// Reads the tag of a stored transaction. A tag outside the closed set is
    /// answered with the error that holds the tag itself.
    pub fn from_tag(tag: &str) -> (res: Result<TransactionKind, Error>)
        ensures
            match kind_of_tag(tag@) {
                Some(kind) => res == Ok::<TransactionKind, Error>(kind),
                None => res matches Err(Error::UnknownVariant(unknown)) && unknown@ == tag@,
            },
    {
        let owned = tag.to_owned();
        if owned == "accountCreate".to_owned() {
            Ok(TransactionKind::AccountCreate)
        } else if owned == "accountUpdate".to_owned() {
            Ok(TransactionKind::AccountUpdate)
        } else if owned == "accountDelete".to_owned() {
            Ok(TransactionKind::AccountDelete)
        } else if owned == "transfer".to_owned() {
            Ok(TransactionKind::Transfer)
        } else {
            Err(Error::UnknownVariant(owned))
        }
    }
}

/// Every kind is found again by its tag, so no two kinds share a tag.
pub proof fn lemma_tag_round_trip(kind: TransactionKind)
    ensures
        kind_of_tag(kind.tag_of()) == Some(kind),
{
    reveal_strlit("accountCreate");
    reveal_strlit("accountUpdate");
    reveal_strlit("accountDelete");
    reveal_strlit("transfer");
    assert("accountCreate"@[7] == 'C');
    assert("accountUpdate"@[7] == 'U');
    assert("accountDelete"@[7] == 'D');
    assert("transfer"@.len() == 8);
}

/// A tag that names a kind is the tag of that kind and of no other.
pub proof fn lemma_tag_of_kind(tag: Seq<char>, kind: TransactionKind)
    ensures
        kind_of_tag(tag) == Some(kind) <==> tag == kind.tag_of(),
{
    lemma_tag_round_trip(kind);
}

/// The form in which a transaction is stored outside the program: the body
/// field by field, without the signers.
#[derive(Debug)]
pub struct AnyTransactionBody<D> {
    pub data: D,
    pub node_account_ids: Option<Vec<AccountId>>,
    pub transaction_valid_duration: Option<ValidDuration>,
    pub max_transaction_fee: Option<u64>,
    pub transaction_memo: String,
    pub payer_account_id: Option<AccountId>,
    pub transaction_id: Option<TransactionId>,
}

/// The stored form of a body: the same fields, one for one.
pub open spec fn stored<D>(body: TransactionBody<D>) -> AnyTransactionBody<D> {
    AnyTransactionBody {
        data: body.data,
        node_account_ids: body.node_account_ids,
        transaction_valid_duration: body.transaction_valid_duration,
        max_transaction_fee: body.max_transaction_fee,
        transaction_memo: body.transaction_memo,
        payer_account_id: body.payer_account_id,
        transaction_id: body.transaction_id,
    }
}

impl<D> AnyTransactionBody<D> {
    /// The body that this stored form stands for: the same fields, one for
    /// one.
    pub open spec fn body(self) -> TransactionBody<D> {
        TransactionBody {
            data: self.data,
            node_account_ids: self.node_account_ids,
            transaction_valid_duration: self.transaction_valid_duration,
            max_transaction_fee: self.max_transaction_fee,
            transaction_memo: self.transaction_memo,
            payer_account_id: self.payer_account_id,
            transaction_id: self.transaction_id,
        }
    }
}

/// Storing a body and reading it back gives the body that was stored, and
/// so a transaction that renders, for every node and under every identifier,
/// into the message that the stored one rendered into.
pub proof fn lemma_store_round_trip<D: TransactionExecute>(
    body: TransactionBody<D>,
    node_account_id: AccountId,
    transaction_id: TransactionId,
)
    ensures
        stored(body).body() == body,
        stored(body).body().wire(node_account_id, transaction_id) == body.wire(
            node_account_id,
            transaction_id,
        ),
{
}

/// Reading a stored body and storing it again gives the same stored form.
pub proof fn lemma_read_round_trip<D>(any: AnyTransactionBody<D>)
    ensures
        stored(any.body()) == any,
{
}

impl<D> From<AnyTransactionBody<D>> for Transaction<D> where D: TransactionExecute {
    /// The transaction that a stored body stands for: that body, unsigned.
    fn from(body: AnyTransactionBody<D>) -> (ret: Self)
        ensures
            ret@.body == body.body(),
            ret@.signers == Seq::<Seq<u8>>::empty(),
    {
        Transaction { body: body.into(), signers: SignerSet::new() }
    }
}

impl<D> FromSpecImpl<AnyTransactionBody<D>> for Transaction<D> where D: TransactionExecute {
    /// Two transactions with the same body and the same signers need not be
    /// the same value, so the conversion is stated by its model, on `from`,
    /// and not by a value.
    open spec fn obeys_from_spec() -> bool {
        false
    }

    open spec fn from_spec(body: AnyTransactionBody<D>) -> Self {
        choose|tx: Transaction<D>|
            tx@ == (TransactionModel { body: body.body(), signers: Seq::<Seq<u8>>::empty() })
    }
}

impl<D> From<TransactionBody<D>> for AnyTransactionBody<D> where D: TransactionExecute {
    fn from(body: TransactionBody<D>) -> (ret: Self) {
        AnyTransactionBody {
            data: body.data,
            node_account_ids: body.node_account_ids,
            transaction_valid_duration: body.transaction_valid_duration,
            max_transaction_fee: body.max_transaction_fee,
            transaction_memo: body.transaction_memo,
            payer_account_id: body.payer_account_id,
            transaction_id: body.transaction_id,
        }
    }
}

impl<D> FromSpecImpl<TransactionBody<D>> for AnyTransactionBody<D> where D: TransactionExecute {
    open spec fn obeys_from_spec() -> bool {
        true
    }

    open spec fn from_spec(body: TransactionBody<D>) -> Self {
        stored(body)
    }
}

impl<D> From<AnyTransactionBody<D>> for TransactionBody<D> where D: TransactionExecute {
    fn from(body: AnyTransactionBody<D>) -> (ret: Self) {
        TransactionBody {
            data: body.data,
            node_account_ids: body.node_account_ids,
            transaction_valid_duration: body.transaction_valid_duration,
            max_transaction_fee: body.max_transaction_fee,
            transaction_memo: body.transaction_memo,
            payer_account_id: body.payer_account_id,
            transaction_id: body.transaction_id,
        }
    }
}

impl<D> FromSpecImpl<AnyTransactionBody<D>> for TransactionBody<D> where D: TransactionExecute {
    open spec fn obeys_from_spec() -> bool {
        true
    }

    open spec fn from_spec(body: AnyTransactionBody<D>) -> Self {
        body.body()
    }
}

} // verus!
