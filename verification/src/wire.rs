//! The wire payloads that requests are rendered into, as plain values.
//!
//! Each type here has the fields of the message that the network's schema
//! defines, so that the layer that encodes messages can copy them field by
//! field. Numbers are signed 64-bit integers on the wire.

use vstd::prelude::*;
use crate::entity::{AccountId, ContractId, FileId, AccountIdOrAlias, ContractIdOrEvmAddress,
    Timestamp, TransactionId, ValidDuration};

verus! {

/// A number as it stands on the wire: the same 64 bits, read as signed.
pub open spec fn wire_num(x: u64) -> i64 {
    x as i64
}

/// Below 2^63 the wire holds the number itself.
pub proof fn lemma_wire_num_small(x: u64)
    requires
        x <= i64::MAX,
    ensures
        wire_num(x) == x,
{
    assert(x <= 0x7fff_ffff_ffff_ffffu64 ==> (x as i64) as u64 == x && (x as i64) >= 0) by (bit_vector);
}

pub fn to_wire_num(x: u64) -> (r: i64)
    ensures
        r == wire_num(x),
{
    #[verifier::truncate]
    (x as i64)
}

/// How an account is named inside a wire account identifier.
#[derive(Clone, Debug, PartialEq, Eq)]
pub enum WireAccount {
    AccountNum(i64),
    Alias(Vec<u8>),
}

pub enum WireAccountView {
    AccountNum(i64),
    Alias(Seq<u8>),
}

impl View for WireAccount {
    type V = WireAccountView;

    open spec fn view(&self) -> WireAccountView {
        match *self {
            WireAccount::AccountNum(n) => WireAccountView::AccountNum(n),
            WireAccount::Alias(bytes) => WireAccountView::Alias(bytes@),
        }
    }
}

#[derive(Clone, Debug, PartialEq, Eq)]
pub struct WireAccountId {
    pub shard_num: i64,
    pub realm_num: i64,
    pub account: Option<WireAccount>,
}

pub struct WireAccountIdView {
    pub shard_num: i64,
    pub realm_num: i64,
    pub account: Option<WireAccountView>,
}

impl View for WireAccountId {
    type V = WireAccountIdView;

    open spec fn view(&self) -> WireAccountIdView {
        WireAccountIdView {
            shard_num: self.shard_num,
            realm_num: self.realm_num,
            account: match self.account {
                Some(a) => Some(a@),
                None => None,
            },
        }
    }
}

/// How a contract is named inside a wire contract identifier.
#[derive(Clone, Debug, PartialEq, Eq)]
pub enum WireContract {
    ContractNum(i64),
    EvmAddress(Vec<u8>),
}

pub enum WireContractView {
    ContractNum(i64),
    EvmAddress(Seq<u8>),
}

impl View for WireContract {
    type V = WireContractView;

    open spec fn view(&self) -> WireContractView {
        match *self {
            WireContract::ContractNum(n) => WireContractView::ContractNum(n),
            WireContract::EvmAddress(bytes) => WireContractView::EvmAddress(bytes@),
        }
    }
}

#[derive(Clone, Debug, PartialEq, Eq)]
pub struct WireContractId {
    pub shard_num: i64,
    pub realm_num: i64,
    pub contract: Option<WireContract>,
}

pub struct WireContractIdView {
    pub shard_num: i64,
    pub realm_num: i64,
    pub contract: Option<WireContractView>,
}

impl View for WireContractId {
    type V = WireContractIdView;

    open spec fn view(&self) -> WireContractIdView {
        WireContractIdView {
            shard_num: self.shard_num,
            realm_num: self.realm_num,
            contract: match self.contract {
                Some(c) => Some(c@),
                None => None,
            },
        }
    }
}

#[derive(Clone, Copy, Debug, PartialEq, Eq, Structural)]
pub struct WireFileId {
    pub shard_num: i64,
    pub realm_num: i64,
    pub file_num: i64,
}

#[derive(Clone, Copy, Debug, PartialEq, Eq, Structural)]
pub struct WireTimestamp {
    pub seconds: i64,
    pub nanos: i32,
}

#[derive(Clone, Copy, Debug, PartialEq, Eq, Structural)]
pub struct WireDuration {
    pub seconds: i64,
}

#[derive(Clone, Debug, PartialEq, Eq)]
pub struct WireTransactionId {
    pub account_id: Option<WireAccountId>,
    pub transaction_valid_start: Option<WireTimestamp>,
}

pub struct WireTransactionIdView {
    pub account_id: Option<WireAccountIdView>,
    pub transaction_valid_start: Option<WireTimestamp>,
}

impl View for WireTransactionId {
    type V = WireTransactionIdView;

    open spec fn view(&self) -> WireTransactionIdView {
        WireTransactionIdView {
            account_id: match self.account_id {
                Some(a) => Some(a@),
                None => None,
            },
            transaction_valid_start: self.transaction_valid_start,
        }
    }
}

impl AccountId {
    /// This account as the wire names it.
    pub open spec fn wire(self) -> WireAccountIdView {
        WireAccountIdView {
            shard_num: wire_num(self.shard),
            realm_num: wire_num(self.realm),
            account: Some(WireAccountView::AccountNum(wire_num(self.num))),
        }
    }

    pub fn to_protobuf(&self) -> (pb: WireAccountId)
        ensures
            pb@ == self.wire(),
    {
        WireAccountId {
            shard_num: to_wire_num(self.shard),
            realm_num: to_wire_num(self.realm),
            account: Some(WireAccount::AccountNum(to_wire_num(self.num))),
        }
    }
}

impl AccountIdOrAlias {
    /// This account as the wire names it: by number, or by the alias bytes.
    pub open spec fn wire(self) -> WireAccountIdView {
        match self {
            AccountIdOrAlias::AccountId(id) => id.wire(),
            AccountIdOrAlias::AccountAlias(a) => WireAccountIdView {
                shard_num: wire_num(a.shard),
                realm_num: wire_num(a.realm),
                account: Some(WireAccountView::Alias(a.alias@)),
            },
        }
    }

    pub fn to_protobuf(&self) -> (pb: WireAccountId)
        ensures
            pb@ == self.wire(),
    {
        match self {
            AccountIdOrAlias::AccountId(id) => id.to_protobuf(),
            AccountIdOrAlias::AccountAlias(a) => {
                let bytes = a.alias.clone();
                assert(bytes@ =~= a.alias@);
                WireAccountId {
                    shard_num: to_wire_num(a.shard),
                    realm_num: to_wire_num(a.realm),
                    account: Some(WireAccount::Alias(bytes)),
                }
            },
        }
    }
}

impl ContractId {
    /// This contract as the wire names it.
    pub open spec fn wire(self) -> WireContractIdView {
        WireContractIdView {
            shard_num: wire_num(self.shard),
            realm_num: wire_num(self.realm),
            contract: Some(WireContractView::ContractNum(wire_num(self.num))),
        }
    }

    pub fn to_protobuf(&self) -> (pb: WireContractId)
        ensures
            pb@ == self.wire(),
    {
        WireContractId {
            shard_num: to_wire_num(self.shard),
            realm_num: to_wire_num(self.realm),
            contract: Some(WireContract::ContractNum(to_wire_num(self.num))),
        }
    }
}

impl ContractIdOrEvmAddress {
    /// This contract as the wire names it: by number, or by the 20 bytes of
    /// its EVM address.
    pub open spec fn wire(self) -> WireContractIdView {
        match self {
            ContractIdOrEvmAddress::ContractId(id) => id.wire(),
            ContractIdOrEvmAddress::ContractEvmAddress(a) => WireContractIdView {
                shard_num: wire_num(a.shard),
                realm_num: wire_num(a.realm),
                contract: Some(WireContractView::EvmAddress(a.address@)),
            },
        }
    }

    pub fn to_protobuf(&self) -> (pb: WireContractId)
        ensures
            pb@ == self.wire(),
    {
        match self {
            ContractIdOrEvmAddress::ContractId(id) => id.to_protobuf(),
            ContractIdOrEvmAddress::ContractEvmAddress(a) => {
                let mut bytes: Vec<u8> = Vec::new();
                let mut i: usize = 0;
                while i < 20
                    invariant
                        i <= 20,
                        bytes@ == a.address@.subrange(0, i as int),
                    decreases 20 - i,
                {
                    bytes.push(a.address[i]);
                    i = i + 1;
                }
                assert(bytes@ =~= a.address@);
                WireContractId {
                    shard_num: to_wire_num(a.shard),
                    realm_num: to_wire_num(a.realm),
                    contract: Some(WireContract::EvmAddress(bytes)),
                }
            },
        }
    }
}

impl FileId {
    /// This file as the wire names it.
    pub open spec fn wire(self) -> WireFileId {
        WireFileId {
            shard_num: wire_num(self.shard),
            realm_num: wire_num(self.realm),
            file_num: wire_num(self.num),
        }
    }

    pub fn to_protobuf(&self) -> (pb: WireFileId)
        ensures
            pb == self.wire(),
    {
        WireFileId {
            shard_num: to_wire_num(self.shard),
            realm_num: to_wire_num(self.realm),
            file_num: to_wire_num(self.num),
        }
    }
}

impl Timestamp {
    pub open spec fn wire(self) -> WireTimestamp {
        WireTimestamp { seconds: self.seconds, nanos: self.nanos }
    }

    pub fn to_protobuf(&self) -> (pb: WireTimestamp)
        ensures
            pb == self.wire(),
    {
        WireTimestamp { seconds: self.seconds, nanos: self.nanos }
    }
}

impl ValidDuration {
    pub open spec fn wire(self) -> WireDuration {
        WireDuration { seconds: self.seconds }
    }

    pub fn to_protobuf(&self) -> (pb: WireDuration)
        ensures
            pb == self.wire(),
    {
        WireDuration { seconds: self.seconds }
    }
}

impl TransactionId {
    /// This identifier as the wire names it.
    pub open spec fn wire(self) -> WireTransactionIdView {
        WireTransactionIdView {
            account_id: Some(self.account_id.wire()),
            transaction_valid_start: Some(self.valid_start.wire()),
        }
    }

    pub fn to_protobuf(&self) -> (pb: WireTransactionId)
        ensures
            pb@ == self.wire(),
    {
        WireTransactionId {
            account_id: Some(self.account_id.to_protobuf()),
            transaction_valid_start: Some(self.valid_start.to_protobuf()),
        }
    }
}

} // verus!
