//! The ledger store: the four relations of the ledger, with no rule of their
//! own beyond get and set.

use crate::primitives::{Address, U256};
use crate::table::{Key, Table};
use vstd::prelude::*;

verus! {

/// The pair under which an operator grant is stored.
#[derive(Clone, Copy, Debug, PartialEq, Eq, Structural)]
pub struct Grant {
    pub owner: Address,
    pub operator: Address,
}

impl Key for U256 {
    fn same(&self, other: &Self) -> (same: bool) {
        *self == *other
    }
}

impl Key for Address {
    fn same(&self, other: &Self) -> (same: bool) {
        *self == *other
    }
}

impl Key for Grant {
    fn same(&self, other: &Self) -> (same: bool) {
        *self == *other
    }
}

/// Owner of each token, balance of each account, approved spender of each
/// token, and the operator grants.
pub struct LedgerStore {
    owners: Table<U256, Address>,
    balances: Table<Address, U256>,
    approvals: Table<U256, Address>,
    operators: Table<Grant, bool>,
}

impl LedgerStore {
    /// The store holds its relations soundly; a key that was never set has the
    /// zero sentinel, the balance zero, or no grant.
    pub closed spec fn wf(&self) -> bool {
        &&& self.owners.wf()
        &&& self.balances.wf()
        &&& self.approvals.wf()
        &&& self.operators.wf()
        &&& self.owners.default_value() == Address::zero()
        &&& self.balances.default_value() == U256::zero()
        &&& self.approvals.default_value() == Address::zero()
        &&& self.operators.default_value() == false
    }

    /// The owner of every token; zero for a token that has none.
    pub closed spec fn owners(&self) -> Map<U256, Address> {
        self.owners@
    }

    /// The balance of every account.
    pub closed spec fn balances(&self) -> Map<Address, U256> {
        self.balances@
    }

    /// The approved spender of every token; zero where there is none.
    pub closed spec fn approvals(&self) -> Map<U256, Address> {
        self.approvals@
    }

    /// Whether `grant.owner` has made `grant.operator` its operator.
    pub closed spec fn operators(&self) -> Map<Grant, bool> {
        self.operators@
    }

    /// The store in which no token has an owner or a spender, every balance
    /// is zero and no operator is granted.
    pub fn new() -> (store: Self)
        ensures
            store.wf(),
            store.owners() == Map::total(|id: U256| Address::zero()),
            store.balances() == Map::total(|account: Address| U256::zero()),
            store.approvals() == Map::total(|id: U256| Address::zero()),
            store.operators() == Map::total(|grant: Grant| false),
    {
        LedgerStore {
            owners: Table::new(Address::zero()),
            balances: Table::new(U256::zero()),
            approvals: Table::new(Address::zero()),
            operators: Table::new(false),
        }
    }

    pub fn owner(&self, token_id: U256) -> (owner: Address)
        requires
            self.wf(),
        ensures
            owner == self.owners()[token_id],
    {
        self.owners.get(token_id)
    }

    pub fn set_owner(&mut self, token_id: U256, owner: Address)
        requires
            old(self).wf(),
        ensures
            final(self).wf(),
            final(self).owners() == old(self).owners().insert(token_id, owner),
            final(self).balances() == old(self).balances(),
            final(self).approvals() == old(self).approvals(),
            final(self).operators() == old(self).operators(),
    {
        self.owners.set(token_id, owner);
    }

    pub fn balance(&self, account: Address) -> (balance: U256)
        requires
            self.wf(),
        ensures
            balance == self.balances()[account],
    {
        self.balances.get(account)
    }

    pub fn set_balance(&mut self, account: Address, balance: U256)
        requires
            old(self).wf(),
        ensures
            final(self).wf(),
            final(self).owners() == old(self).owners(),
            final(self).balances() == old(self).balances().insert(account, balance),
            final(self).approvals() == old(self).approvals(),
            final(self).operators() == old(self).operators(),
    {
        self.balances.set(account, balance);
    }

    pub fn approved(&self, token_id: U256) -> (spender: Address)
        requires
            self.wf(),
        ensures
            spender == self.approvals()[token_id],
    {
        self.approvals.get(token_id)
    }

    pub fn set_approved(&mut self, token_id: U256, spender: Address)
        requires
            old(self).wf(),
        ensures
            final(self).wf(),
            final(self).owners() == old(self).owners(),
            final(self).balances() == old(self).balances(),
            final(self).approvals() == old(self).approvals().insert(token_id, spender),
            final(self).operators() == old(self).operators(),
    {
        self.approvals.set(token_id, spender);
    }

    pub fn operator(&self, owner: Address, operator: Address) -> (granted: bool)
        requires
            self.wf(),
        ensures
            granted == self.operators()[Grant { owner, operator }],
    {
        self.operators.get(Grant { owner, operator })
    }

    pub fn set_operator(&mut self, owner: Address, operator: Address, granted: bool)
        requires
            old(self).wf(),
        ensures
            final(self).wf(),
            final(self).owners() == old(self).owners(),
            final(self).balances() == old(self).balances(),
            final(self).approvals() == old(self).approvals(),
            final(self).operators() == old(self).operators().insert(
                Grant { owner, operator },
                granted,
            ),
    {
        self.operators.set(Grant { owner, operator }, granted);
    }

    /// The tokens that have an owner are finitely many, and the accounts
    /// with a balance too: as many as fit in memory.
    pub proof fn lemma_finitely_many(&self)
        requires
            self.wf(),
        ensures
            Set::new(|id: U256| self.owners()[id] != Address::zero()).finite(),
            Set::new(|id: U256| self.owners()[id] != Address::zero()).len() <= usize::MAX,
            Set::new(|account: Address| self.balances()[account].value() > 0).finite(),
    {
        self.owners.lemma_support_is_bounded();
        assert(Set::new(|id: U256| self.owners()[id] != Address::zero()) =~= self.owners.support());
        self.balances.lemma_support_is_bounded();
        assert(Set::new(|account: Address| self.balances()[account].value() > 0)
            =~= self.balances.support()) by {
            assert forall|account: Address|
                (self.balances()[account].value() > 0) == (self.balances()[account] != U256::zero()) by {
                self.balances()[account].lemma_value_is_injective(U256::zero());
            }
        }
    }
}

} // verus!
