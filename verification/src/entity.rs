//! Identifiers of ledger entities and of logical submissions.

use vstd::prelude::*;
use vstd::std_specs::convert::FromSpecImpl;

verus! {

/// The identifier of an account on the network.
#[derive(Clone, Copy, Debug, PartialEq, Eq, Structural, Hash)]
pub struct AccountId {
    pub shard: u64,
    pub realm: u64,
    pub num: u64,
}

/// The identifier of a smart contract instance.
#[derive(Clone, Copy, Debug, PartialEq, Eq, Structural, Hash)]
pub struct ContractId {
    pub shard: u64,
    pub realm: u64,
    pub num: u64,
}

/// The identifier of a file.
#[derive(Clone, Copy, Debug, PartialEq, Eq, Structural, Hash)]
pub struct FileId {
    pub shard: u64,
    pub realm: u64,
    pub num: u64,
}

/// An account named by the bytes of its public key instead of its number.
#[derive(Clone, Debug, PartialEq, Eq, Hash)]
pub struct AccountAlias {
    pub shard: u64,
    pub realm: u64,
    pub alias: Vec<u8>,
}

/// Either an account identifier or an account alias.
#[derive(Clone, Debug, PartialEq, Eq, Hash)]
pub enum AccountIdOrAlias {
    AccountId(AccountId),
    AccountAlias(AccountAlias),
}

/// A contract named by its 20-byte EVM address instead of its number.
#[derive(Clone, Copy, Debug, PartialEq, Eq, Hash)]
pub struct ContractEvmAddress {
    pub shard: u64,
    pub realm: u64,
    pub address: [u8; 20],
}

/// Either a contract identifier or a contract EVM address.
#[derive(Clone, Copy, Debug, PartialEq, Eq, Hash)]
pub enum ContractIdOrEvmAddress {
    ContractId(ContractId),
    ContractEvmAddress(ContractEvmAddress),
}

/// A point in time: seconds and nanoseconds since the Unix epoch.
#[derive(Clone, Copy, Debug, PartialEq, Eq, Structural, Hash)]
pub struct Timestamp {
    pub seconds: i64,
    pub nanos: i32,
}

/// A span of whole seconds.
#[derive(Clone, Copy, Debug, PartialEq, Eq, Structural, Hash)]
pub struct ValidDuration {
    pub seconds: i64,
}

/// The key of one logical submission: the paying account and the start of
/// the validity window. The network deduplicates submissions by this key, so
/// it stays the same however often and to whichever node the request is sent.
#[derive(Clone, Copy, Debug, PartialEq, Eq, Structural, Hash)]
pub struct TransactionId {
    pub account_id: AccountId,
    pub valid_start: Timestamp,
}

/// A node of the network: where it is reached and the account that is
/// credited with its fees.
#[derive(Clone, Debug, PartialEq, Eq, Hash)]
pub struct NodeIdentity {
    pub address: String,
    pub account_id: AccountId,
}

impl From<AccountId> for AccountIdOrAlias {
    fn from(id: AccountId) -> (ret: Self) {
        AccountIdOrAlias::AccountId(id)
    }
}

impl FromSpecImpl<AccountId> for AccountIdOrAlias {
    open spec fn obeys_from_spec() -> bool {
        true
    }

    open spec fn from_spec(id: AccountId) -> Self {
        AccountIdOrAlias::AccountId(id)
    }
}

impl From<AccountAlias> for AccountIdOrAlias {
    fn from(alias: AccountAlias) -> (ret: Self) {
        AccountIdOrAlias::AccountAlias(alias)
    }
}

impl FromSpecImpl<AccountAlias> for AccountIdOrAlias {
    open spec fn obeys_from_spec() -> bool {
        true
    }

    open spec fn from_spec(alias: AccountAlias) -> Self {
        AccountIdOrAlias::AccountAlias(alias)
    }
}

impl From<ContractId> for ContractIdOrEvmAddress {
    fn from(id: ContractId) -> (ret: Self) {
        ContractIdOrEvmAddress::ContractId(id)
    }
}

impl FromSpecImpl<ContractId> for ContractIdOrEvmAddress {
    open spec fn obeys_from_spec() -> bool {
        true
    }

    open spec fn from_spec(id: ContractId) -> Self {
        ContractIdOrEvmAddress::ContractId(id)
    }
}

impl From<ContractEvmAddress> for ContractIdOrEvmAddress {
    fn from(address: ContractEvmAddress) -> (ret: Self) {
        ContractIdOrEvmAddress::ContractEvmAddress(address)
    }
}

impl FromSpecImpl<ContractEvmAddress> for ContractIdOrEvmAddress {
    open spec fn obeys_from_spec() -> bool {
        true
    }

    open spec fn from_spec(address: ContractEvmAddress) -> Self {
        ContractIdOrEvmAddress::ContractEvmAddress(address)
    }
}

/// `From<T> for T` of std: the conversion of a value into its own type hands
/// the value back unchanged.
pub assume_specification<T>[ <T as From<T>>::from ](t: T) -> (ret: T)
    ensures
        ret == t,
;

} // verus!
