//! The pool of channels to the nodes of the network.
//!
//! A channel is opened when a node is first needed and then kept: later
//! requests to the same node, related or not, use it again. The pool does
//! not know what a channel is and does not open one itself; the caller
//! brings the means to open.

use vstd::prelude::*;
use crate::entity::{AccountId, NodeIdentity};
use crate::execute::status::AttemptResult;

verus! {

/// One open channel and the account of its node.
pub struct Slot<C> {
    pub account: AccountId,
    pub channel: C,
}

/// The accounts of a list of slots, in the order of the list.
pub open spec fn accounts_of<C>(slots: Seq<Slot<C>>) -> Seq<AccountId> {
    Seq::new(slots.len(), |i: int| slots[i].account)
}

/// The channels that are open, each under the account of its node.
pub struct ChannelPool<C> {
    slots: Vec<Slot<C>>,
}

impl<C> View for ChannelPool<C> {
    type V = Map<AccountId, C>;

    /// The open channels by the account of their node.
    closed spec fn view(&self) -> Map<AccountId, C> {
        Map::new(
            |account: AccountId| accounts_of(self.slots@).contains(account),
            |account: AccountId| self.slots@[accounts_of(self.slots@).index_of(account)].channel,
        )
    }
}

impl<C> ChannelPool<C> {
    #[verifier::type_invariant]
    spec fn wf(self) -> bool {
        accounts_of(self.slots@).no_duplicates()
    }

    /// A pool without any channel.
    pub fn new() -> (pool: Self)
        ensures
            pool@ == Map::<AccountId, C>::empty(),
    {
        let pool = ChannelPool { slots: Vec::new() };
        assert(pool@ =~= Map::<AccountId, C>::empty());
        pool
    }

    /// How many channels are open.
    pub fn len(&self) -> (n: usize)
        ensures
            n == self@.dom().len(),
            self@.dom().finite(),
    {
        proof {
            use_type_invariant(self);
            accounts_of(self.slots@).unique_seq_to_set();
            assert(self@.dom() =~= accounts_of(self.slots@).to_set());
        }
        self.slots.len()
    }

    fn position(&self, account: AccountId) -> (at: Option<usize>)
        ensures
            match at {
                Some(i) => i < self.slots@.len() && self.slots@[i as int].account == account
                    && accounts_of(self.slots@).index_of(account) == i,
                None => !accounts_of(self.slots@).contains(account),
            },
    {
        proof {
            use_type_invariant(self);
        }
        let ghost accounts = accounts_of(self.slots@);
        let mut i: usize = 0;
        while i < self.slots.len()
            invariant
                i <= self.slots.len(),
                accounts == accounts_of(self.slots@),
                accounts.no_duplicates(),
                forall|j: int| 0 <= j < i ==> accounts[j] != account,
            decreases self.slots.len() - i,
        {
            if self.slots[i].account == account {
                proof {
                    assert(accounts[i as int] == account);
                    assert(accounts.contains(account));
                    let k = accounts.index_of(account);
                    assert(accounts[k] == account);
                }
                return Some(i);
            }
            i = i + 1;
        }
        None
    }

    /// The open channel to a node, if there is one.
    pub fn get(&self, account: AccountId) -> (channel: Option<&C>)
        ensures
            match channel {
                Some(c) => self@.dom().contains(account) && *c == self@[account],
                None => !self@.dom().contains(account),
            },
    {
        match self.position(account) {
            Some(i) => {
                assert(accounts_of(self.slots@)[i as int] == account);
                Some(&self.slots[i].channel)
            },
            None => None,
        }
    }

    /// The channel to a node: the one that is open, or else a new one.
    ///
    /// `open` is the means to open a channel. It is called only where no
    /// channel to the node is open, and then once: a node that cannot be
    /// reached is reported as such and not tried again here. Whether and
    /// where to try again is for the execution to decide.
    pub fn channel_for<E, F: FnOnce(&NodeIdentity) -> Result<C, E>>(
        &mut self,
        node: &NodeIdentity,
        open: F,
    ) -> (res: Result<&C, AttemptResult>)
        requires
            call_requires(open, (node,)),
        ensures
            old(self)@.dom().contains(node.account_id) ==> final(self)@ == old(self)@ && (
            res matches Ok(c) && *c == old(self)@[node.account_id]),
            !old(self)@.dom().contains(node.account_id) ==> match res {
                Ok(c) => call_ensures(open, (node,), Ok::<C, E>(*c)) && final(self)@ == old(
                    self,
                )@.insert(node.account_id, *c),
                Err(e) => e == AttemptResult::ConnectFailed && final(self)@ == old(self)@ && (
                exists|fault: E| call_ensures(open, (node,), Err::<C, E>(fault))),
            },
    {
        proof {
            use_type_invariant(&*self);
        }
        let account = node.account_id;
        match self.position(account) {
            Some(i) => {
                assert(accounts_of(self.slots@)[i as int] == account);
                Ok(&self.slots[i].channel)
            },
            None => {
                match open(node) {
                    Ok(channel) => {
                        let ghost before = self@;
                        let ghost opened = channel;
                        let mut slots: Vec<Slot<C>> = Vec::new();
                        std::mem::swap(&mut slots, &mut self.slots);
                        let ghost old_accounts = accounts_of(slots@);
                        let ghost old_slots = slots@;
                        slots.push(Slot { account, channel });
                        let at = slots.len() - 1;
                        proof {
                            let accounts = accounts_of(slots@);
                            assert(accounts =~= old_accounts.push(account));
                            assert(accounts.no_duplicates());
                        }
                        self.slots = slots;
                        proof {
                            let accounts = accounts_of(self.slots@);
                            assert(accounts[at as int] == account);
                            assert forall|other: AccountId|
                                accounts.contains(other) <==> (old_accounts.contains(other)
                                    || other == account) by {
                                if old_accounts.contains(other) {
                                    let k = old_accounts.index_of(other);
                                    assert(old_accounts[k] == other);
                                    assert(accounts[k] == other);
                                }
                                if accounts.contains(other) {
                                    let k = accounts.index_of(other);
                                    assert(accounts[k] == other);
                                    if k < old_accounts.len() {
                                        assert(old_accounts[k] == other);
                                    }
                                }
                            }
                            assert forall|other: AccountId| #[trigger]
                                accounts.contains(other) implies self@[other] == before.insert(
                                account,
                                opened,
                            )[other] by {
                                let k = accounts.index_of(other);
                                assert(accounts[k] == other);
                                if other != account {
                                    let k0 = old_accounts.index_of(other);
                                    assert(old_accounts[k0] == other);
                                    assert(accounts[k0] == other);
                                    assert(k == k0);
                                } else {
                                    assert(k == at);
                                }
                            }
                            assert(self@ =~= before.insert(account, opened));
                        }
                        Ok(&self.slots[at].channel)
                    },
                    Err(fault) => {
                        Err(AttemptResult::ConnectFailed)
                    },
                }
            },
        }
    }
}

} // verus!
