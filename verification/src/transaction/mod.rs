//! The generic transaction: a body of one kind, the limits it is sent under
//! and the signers attached to it. Once a signer is attached the transaction
//! is frozen: every later change is refused.

use vstd::prelude::*;
use crate::entity::{AccountId, Timestamp, TransactionId, ValidDuration};
use crate::error::{BuildFault, Error};
use crate::message::{TransactionBodyMessage, TransactionBodyMessageView, TransactionData,
    TransactionDataView};
use crate::signer::{signed_by, SignaturePair, SignerSet};

pub mod any;

verus! {

/// One hundred million of the smallest unit of the currency.
pub const HBAR: u64 = 100_000_000;

/// The fee limit of a kind that names none of its own.
pub const DEFAULT_MAX_TRANSACTION_FEE: u64 = 200_000_000;

/// How long a transaction stays valid where the caller sets no duration.
pub const DEFAULT_VALID_SECONDS: i64 = 120;

/// A transaction body that can render the data of its kind.
pub trait ToTransactionDataProtobuf {
    /// The data that this body renders into, for a node and an identifier.
    spec fn transaction_data(
        &self,
        node_account_id: AccountId,
        transaction_id: TransactionId,
    ) -> TransactionDataView;

    fn to_transaction_data_protobuf(
        &self,
        node_account_id: AccountId,
        transaction_id: &TransactionId,
    ) -> (data: TransactionData)
        ensures
            data@ == self.transaction_data(node_account_id, *transaction_id),
    ;
}

/// The calls of the network that take transactions.
#[derive(Clone, Copy, Debug, PartialEq, Eq, Structural)]
pub enum TransactionMethod {
    /// The account creation call of the crypto service.
    CreateAccount,
    /// The account update call of the crypto service.
    UpdateAccount,
    /// The account deletion call of the crypto service.
    CryptoDelete,
    /// The transfer call of the crypto service.
    CryptoTransfer,
}

/// What the execution of a kind of transaction depends on.
pub trait TransactionExecute: ToTransactionDataProtobuf {
    /// The call of the network that takes this transaction.
    spec fn called_by(&self) -> TransactionMethod;

    fn method(&self) -> (method: TransactionMethod)
        ensures
            method == self.called_by(),
    ;

    /// The fee limit of this kind where the caller sets none.
    spec fn default_fee(&self) -> u64;

    fn default_max_transaction_fee(&self) -> (fee: u64)
        ensures
            fee == self.default_fee(),
    ;
}

/// What a transaction holds besides its signers.
#[derive(Clone, Debug)]
pub struct TransactionBody<D> {
    pub data: D,
    /// The nodes that may take this transaction, in the order in which they
    /// are tried; `None` for the nodes that the client knows.
    pub node_account_ids: Option<Vec<AccountId>>,
    pub transaction_valid_duration: Option<ValidDuration>,
    pub max_transaction_fee: Option<u64>,
    pub transaction_memo: String,
    pub payer_account_id: Option<AccountId>,
    pub transaction_id: Option<TransactionId>,
}

impl<D> TransactionBody<D> {
    pub open spec fn with_data(self, data: D) -> Self {
        TransactionBody { data, ..self }
    }

    pub open spec fn with_node_account_ids(self, ids: Vec<AccountId>) -> Self {
        TransactionBody { node_account_ids: Some(ids), ..self }
    }

    pub open spec fn with_valid_duration(self, duration: ValidDuration) -> Self {
        TransactionBody { transaction_valid_duration: Some(duration), ..self }
    }

    pub open spec fn with_max_fee(self, fee: u64) -> Self {
        TransactionBody { max_transaction_fee: Some(fee), ..self }
    }

    pub open spec fn with_memo(self, memo: String) -> Self {
        TransactionBody { transaction_memo: memo, ..self }
    }

    pub open spec fn with_payer(self, payer: AccountId) -> Self {
        TransactionBody { payer_account_id: Some(payer), ..self }
    }

    pub open spec fn with_transaction_id(self, id: TransactionId) -> Self {
        TransactionBody { transaction_id: Some(id), ..self }
    }

    /// The identifier that the first attempt is sent under, chosen at time
    /// `now` for a client that pays from `operator`: the identifier set on the
    /// transaction; else one that starts at `now` and is paid by the payer set
    /// on the transaction, or else by the operator. Without any of them there
    /// is none.
    pub open spec fn chosen_transaction_id(
        self,
        operator: Option<AccountId>,
        now: Timestamp,
    ) -> Option<TransactionId> {
        match self.transaction_id {
            Some(id) => Some(id),
            None => match self.payer_account_id {
                Some(payer) => Some(TransactionId { account_id: payer, valid_start: now }),
                None => match operator {
                    Some(payer) => Some(TransactionId { account_id: payer, valid_start: now }),
                    None => None,
                },
            },
        }
    }
}

impl<D: TransactionExecute> TransactionBody<D> {
    /// The fee limit that the transaction is sent with.
    pub open spec fn fee(self) -> u64 {
        match self.max_transaction_fee {
            Some(fee) => fee,
            None => self.data.default_fee(),
        }
    }

    /// The validity duration that the transaction is sent with.
    pub open spec fn valid_duration(self) -> ValidDuration {
        match self.transaction_valid_duration {
            Some(duration) => duration,
            None => ValidDuration { seconds: DEFAULT_VALID_SECONDS },
        }
    }

    /// The message that the body renders into for a node and an identifier.
    pub open spec fn wire(
        self,
        node_account_id: AccountId,
        transaction_id: TransactionId,
    ) -> TransactionBodyMessageView {
        TransactionBodyMessageView {
            transaction_id: Some(transaction_id.wire()),
            node_account_id: Some(node_account_id.wire()),
            transaction_fee: self.fee(),
            transaction_valid_duration: Some(self.valid_duration().wire()),
            memo: self.transaction_memo@,
            data: Some(self.data.transaction_data(node_account_id, transaction_id)),
        }
    }

    /// Renders the body for one attempt: addressed to a node, under the
    /// identifier of the submission.
    pub fn render(&self, node_account_id: AccountId, transaction_id: &TransactionId) -> (msg:
        TransactionBodyMessage)
        ensures
            msg@ == self.wire(node_account_id, *transaction_id),
    {
        let fee = match self.max_transaction_fee {
            Some(fee) => fee,
            None => self.data.default_max_transaction_fee(),
        };
        let duration = match self.transaction_valid_duration {
            Some(duration) => duration,
            None => ValidDuration { seconds: DEFAULT_VALID_SECONDS },
        };
        TransactionBodyMessage {
            transaction_id: Some(transaction_id.to_protobuf()),
            node_account_id: Some(node_account_id.to_protobuf()),
            transaction_fee: fee,
            transaction_valid_duration: Some(duration.to_protobuf()),
            memo: self.transaction_memo.clone(),
            data: Some(self.data.to_transaction_data_protobuf(node_account_id, transaction_id)),
        }
    }
}

/// A transaction as contracts speak of it: its body and the public
/// identities of its signers, in the order of attachment.
pub struct TransactionModel<D> {
    pub body: TransactionBody<D>,
    pub signers: Seq<Seq<u8>>,
}

impl<D> TransactionModel<D> {
    /// A transaction is frozen as soon as it has a signer.
    pub open spec fn is_frozen(self) -> bool {
        self.signers.len() > 0
    }

    /// The transaction after a signer is attached: an identity that is
    /// attached already is not attached again.
    pub open spec fn with_signer(self, public_identity: Seq<u8>) -> Self {
        if self.signers.contains(public_identity) {
            self
        } else {
            TransactionModel { signers: self.signers.push(public_identity), ..self }
        }
    }

    /// The outcome of a change that would make `body` the body of the
    /// transaction: refused if the transaction is frozen.
    pub open spec fn with_body(self, body: TransactionBody<D>) -> Result<Self, Error> {
        if self.is_frozen() {
            Err(Error::InvalidState("transaction is frozen"))
        } else {
            Ok(TransactionModel { body, ..self })
        }
    }
}

/// A transaction of kind `D`.
#[derive(Debug)]
pub struct Transaction<D> {
    pub(crate) body: TransactionBody<D>,
    pub(crate) signers: SignerSet,
}

impl<D> View for Transaction<D> {
    type V = TransactionModel<D>;

    open(crate) spec fn view(&self) -> TransactionModel<D> {
        TransactionModel { body: self.body, signers: self.signers@ }
    }
}

/// The outcome of a change as contracts speak of it: the transaction that
/// was handed back, by its model, or the error.
pub open spec fn outcome_of<D>(res: Result<&mut Transaction<D>, Error>) -> Result<
    TransactionModel<D>,
    Error,
> {
    match res {
        Ok(ret) => Ok(ret@),
        Err(e) => Err(e),
    }
}

impl<D> Transaction<D> {
    /// An unsigned transaction around `data`, with no limit set.
    pub fn with_data(data: D) -> (tx: Self)
        ensures
            tx@.body.data == data,
            tx@.body.node_account_ids is None,
            tx@.body.transaction_valid_duration is None,
            tx@.body.max_transaction_fee is None,
            tx@.body.transaction_memo@ == Seq::<char>::empty(),
            tx@.body.payer_account_id is None,
            tx@.body.transaction_id is None,
            tx@.signers == Seq::<Seq<u8>>::empty(),
    {
        Transaction {
            body: TransactionBody {
                data,
                node_account_ids: None,
                transaction_valid_duration: None,
                max_transaction_fee: None,
                transaction_memo: String::new(),
                payer_account_id: None,
                transaction_id: None,
            },
            signers: SignerSet::new(),
        }
    }

    /// The body of the transaction.
    pub fn body(&self) -> (body: &TransactionBody<D>)
        ensures
            *body == self@.body,
    {
        &self.body
    }

    /// The signers of the transaction.
    pub fn signers(&self) -> (signers: &SignerSet)
        ensures
            signers@ == self@.signers,
    {
        &self.signers
    }

    /// Whether the transaction has a signer and so refuses every change.
    pub fn is_frozen(&self) -> (frozen: bool)
        ensures
            frozen == self@.is_frozen(),
    {
        self.signers.len() > 0
    }

    /// Attaches a signer, unless one of the same identity is attached
    /// already. From then on the transaction is frozen.
    pub fn sign_with(&mut self, public_identity: Vec<u8>) -> (ret: &mut Self)
        ensures
            ret@ == old(self)@.with_signer(public_identity@),
            ret@.is_frozen(),
            *final(self) == *final(ret),
    {
        self.signers.attach(public_identity);
        self
    }

    /// Has every signer sign the payload, in the order of attachment.
    pub fn sign_payload<F: Fn(&Vec<u8>, &Vec<u8>) -> Vec<u8>>(
        &self,
        payload: &Vec<u8>,
        sign: F,
    ) -> (signatures: Vec<SignaturePair>)
        requires
            forall|id: &Vec<u8>| call_requires(sign, (id, payload)),
        ensures
            signatures@.len() == self@.signers.len(),
            forall|i: int|
                0 <= i < self@.signers.len() ==> (#[trigger] signatures@[i]).public_identity@
                    == self@.signers[i],
            forall|i: int|
                0 <= i < self@.signers.len() ==> signed_by(
                    sign,
                    self@.signers[i],
                    payload,
                    (#[trigger] signatures@[i]).signature,
                ),
    {
        self.signers.sign_payload(payload, sign)
    }

    /// Replaces the data of the transaction.
    pub fn data(&mut self, data: D) -> (res: Result<&mut Self, Error>)
        ensures
            outcome_of(res) == old(self)@.with_body(old(self)@.body.with_data(data)),
            res matches Ok(ret) ==> *final(self) == *final(ret),
            res is Err ==> *final(self) == *old(self),
    {
        if self.is_frozen() {
            return Err(Error::InvalidState("transaction is frozen"));
        }
        self.body.data = data;
        Ok(self)
    }

    /// Sets the nodes that may take this transaction, in the order in which
    /// they are to be tried.
    pub fn node_account_ids(&mut self, ids: Vec<AccountId>) -> (res: Result<&mut Self, Error>)
        ensures
            outcome_of(res) == old(self)@.with_body(old(self)@.body.with_node_account_ids(ids)),
            res matches Ok(ret) ==> *final(self) == *final(ret),
            res is Err ==> *final(self) == *old(self),
    {
        if self.is_frozen() {
            return Err(Error::InvalidState("transaction is frozen"));
        }
        self.body.node_account_ids = Some(ids);
        Ok(self)
    }

    /// Sets how long the transaction stays valid after its start.
    pub fn transaction_valid_duration(&mut self, duration: ValidDuration) -> (res: Result<
        &mut Self,
        Error,
    >)
        ensures
            outcome_of(res) == old(self)@.with_body(old(self)@.body.with_valid_duration(duration)),
            res matches Ok(ret) ==> *final(self) == *final(ret),
            res is Err ==> *final(self) == *old(self),
    {
        if self.is_frozen() {
            return Err(Error::InvalidState("transaction is frozen"));
        }
        self.body.transaction_valid_duration = Some(duration);
        Ok(self)
    }

    /// Sets the highest fee that the payer is willing to pay.
    pub fn max_transaction_fee(&mut self, fee: u64) -> (res: Result<&mut Self, Error>)
        ensures
            outcome_of(res) == old(self)@.with_body(old(self)@.body.with_max_fee(fee)),
            res matches Ok(ret) ==> *final(self) == *final(ret),
            res is Err ==> *final(self) == *old(self),
    {
        if self.is_frozen() {
            return Err(Error::InvalidState("transaction is frozen"));
        }
        self.body.max_transaction_fee = Some(fee);
        Ok(self)
    }

    /// Sets the note that is stored with the transaction.
    pub fn transaction_memo(&mut self, memo: String) -> (res: Result<&mut Self, Error>)
        ensures
            outcome_of(res) == old(self)@.with_body(old(self)@.body.with_memo(memo)),
            res matches Ok(ret) ==> *final(self) == *final(ret),
            res is Err ==> *final(self) == *old(self),
    {
        if self.is_frozen() {
            return Err(Error::InvalidState("transaction is frozen"));
        }
        self.body.transaction_memo = memo;
        Ok(self)
    }

    /// Sets the account that pays for the transaction.
    pub fn payer_account_id(&mut self, payer: AccountId) -> (res: Result<&mut Self, Error>)
        ensures
            outcome_of(res) == old(self)@.with_body(old(self)@.body.with_payer(payer)),
            res matches Ok(ret) ==> *final(self) == *final(ret),
            res is Err ==> *final(self) == *old(self),
    {
        if self.is_frozen() {
            return Err(Error::InvalidState("transaction is frozen"));
        }
        self.body.payer_account_id = Some(payer);
        Ok(self)
    }

    /// Sets the identifier that the transaction is sent under.
    pub fn transaction_id(&mut self, id: TransactionId) -> (res: Result<&mut Self, Error>)
        ensures
            outcome_of(res) == old(self)@.with_body(old(self)@.body.with_transaction_id(id)),
            res matches Ok(ret) ==> *final(self) == *final(ret),
            res is Err ==> *final(self) == *old(self),
    {
        if self.is_frozen() {
            return Err(Error::InvalidState("transaction is frozen"));
        }
        self.body.transaction_id = Some(id);
        Ok(self)
    }

    /// Chooses the identifier for the first attempt. Every later attempt is
    /// sent under the same one.
    pub fn choose_transaction_id(&self, operator: Option<AccountId>, now: Timestamp) -> (res:
        Result<TransactionId, Error>)
        ensures
            match self@.body.chosen_transaction_id(operator, now) {
                Some(id) => res == Ok::<TransactionId, Error>(id),
                None => res == Err::<TransactionId, Error>(
                    Error::Build { fault: BuildFault::MissingTransactionId, transaction_id: None },
                ),
            },
    {
        if let Some(id) = self.body.transaction_id {
            return Ok(id);
        }
        if let Some(payer) = self.body.payer_account_id {
            return Ok(TransactionId { account_id: payer, valid_start: now });
        }
        match operator {
            Some(payer) => Ok(TransactionId { account_id: payer, valid_start: now }),
            None => Err(
                Error::Build { fault: BuildFault::MissingTransactionId, transaction_id: None },
            ),
        }
    }
}

impl<D: Default> Transaction<D> {
    /// An unsigned transaction with the default body of its kind.
    pub fn new() -> (tx: Self)
        ensures
            call_ensures(D::default, (), tx@.body.data),
            tx@.body.node_account_ids is None,
            tx@.body.transaction_valid_duration is None,
            tx@.body.max_transaction_fee is None,
            tx@.body.transaction_memo@ == Seq::<char>::empty(),
            tx@.body.payer_account_id is None,
            tx@.body.transaction_id is None,
            tx@.signers == Seq::<Seq<u8>>::empty(),
    {
        Transaction::with_data(D::default())
    }
}

/// A signed transaction refuses every change: whatever body is asked for, the
/// answer is the error of a wrong state, and the transaction stays as it is.
pub proof fn lemma_frozen_after_signing<D>(
    tx: TransactionModel<D>,
    public_identity: Seq<u8>,
    wanted: TransactionBody<D>,
)
    ensures
        tx.with_signer(public_identity).is_frozen(),
        tx.with_signer(public_identity).with_body(wanted) == Err::<TransactionModel<D>, Error>(
            Error::InvalidState("transaction is frozen"),
        ),
{
    if tx.signers.contains(public_identity) {
        assert(tx.signers.len() > 0);
    }
}

/// A frozen transaction stays frozen whatever is asked of it next: another
/// signer, or a change.
pub proof fn lemma_frozen_stays<D>(
    tx: TransactionModel<D>,
    public_identity: Seq<u8>,
    wanted: TransactionBody<D>,
)
    requires
        tx.is_frozen(),
    ensures
        tx.with_signer(public_identity).is_frozen(),
        tx.with_signer(public_identity).body == tx.body,
        tx.with_body(wanted) is Err,
{
}

} // verus!
