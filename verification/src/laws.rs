//! The laws of the ledger: what holds of every state that the operations
//! reach, proved over the mathematical state.

use crate::model::{minted_since_last_burn, LedgerState, Operation};
use crate::primitives::{Address, U256};
use crate::store::Grant;
use vstd::prelude::*;

verus! {

impl LedgerState {
    /// The fresh ledger is consistent.
    pub proof fn lemma_fresh_is_consistent()
        ensures
            Self::fresh().consistent(),
    {
        let s = Self::fresh();
        assert(s.minted() =~= Set::empty());
        assert(s.holders() =~= Set::empty());
        assert forall|account: Address| account != Address::zero() implies s.balances[account]
            == #[trigger] s.tokens_of(account).len() by {
            assert(s.tokens_of(account) =~= Set::empty());
        }
    }

    /// The tokens of an account are among the minted ones.
    proof fn lemma_tokens_of_finite(self, account: Address)
        requires
            self.minted().finite(),
            account != Address::zero(),
        ensures
            self.tokens_of(account).finite(),
            self.tokens_of(account).len() <= self.minted().len(),
    {
        vstd::set_lib::lemma_len_subset(self.tokens_of(account), self.minted());
    }

    /// An account owns no more tokens than are minted.
    pub proof fn lemma_balance_at_most_supply(self, account: Address)
        requires
            self.consistent(),
        ensures
            self.balances[account] <= self.minted().len(),
    {
        if account != Address::zero() {
            self.lemma_tokens_of_finite(account);
        }
    }

    /// The owner of a minted token has a balance of at least one.
    pub proof fn lemma_owner_has_balance(self, token_id: U256)
        requires
            self.consistent(),
            self.owners[token_id] != Address::zero(),
        ensures
            self.balances[self.owners[token_id]] >= 1,
    {
        let owner = self.owners[token_id];
        self.lemma_tokens_of_finite(owner);
        assert(self.tokens_of(owner).contains(token_id));
        if self.tokens_of(owner).len() == 0 {
            assert(self.tokens_of(owner) =~= Set::empty());
        }
    }

    /// The balances of finitely many accounts add up to the number of tokens
    /// that these accounts own.
    pub proof fn lemma_balances_count_tokens(self, accounts: Set<Address>)
        requires
            self.consistent(),
            accounts.finite(),
            !accounts.contains(Address::zero()),
        ensures
            self.tokens_held_by(accounts).finite(),
            self.sum_of_balances(accounts) == self.tokens_held_by(accounts).len(),
        decreases accounts.len(),
    {
        let add = self.add_balance();
        assert(vstd::set::fold::is_fun_commutative(add));
        vstd::set_lib::lemma_len_subset(self.tokens_held_by(accounts), self.minted());
        if accounts.len() == 0 {
            assert(accounts =~= Set::empty());
            vstd::set::fold::lemma_fold_empty(0nat, add);
            assert(self.tokens_held_by(accounts) =~= Set::empty());
        } else {
            let account = accounts.choose();
            let others = accounts.remove(account);
            self.lemma_balances_count_tokens(others);
            assert(others.insert(account) =~= accounts);
            vstd::set::fold::lemma_fold_insert(others, 0nat, add, account);
            self.lemma_tokens_of_finite(account);
            let theirs = self.tokens_held_by(others);
            let its = self.tokens_of(account);
            assert(self.tokens_held_by(accounts) =~= theirs + its);
            assert(theirs.disjoint(its));
            vstd::set_lib::lemma_set_disjoint_lens(theirs, its);
        }
    }

    /// The balances of all accounts add up to the number of minted tokens.
    pub proof fn lemma_total_balance_is_supply(self)
        requires
            self.consistent(),
        ensures
            self.total_balance() == self.minted().len(),
    {
        self.lemma_balances_count_tokens(self.holders());
        assert forall|id: U256| self.minted().contains(id) implies self.tokens_held_by(
            self.holders(),
        ).contains(id) by {
            self.lemma_owner_has_balance(id);
        }
        assert(self.tokens_held_by(self.holders()) =~= self.minted());
    }

    /// A transfer that passes its checks for a caller that is an account moves
    /// a token that is minted.
    pub proof fn lemma_transfer_moves_minted_token(
        self,
        caller: Address,
        from: Address,
        to: Address,
        token_id: U256,
    )
        requires
            self.consistent(),
            caller != Address::zero(),
            self.transfer_verdict(caller, from, to, token_id) is Ok,
        ensures
            from != Address::zero(),
            from == self.owners[token_id],
            to != Address::zero(),
    {
        if from == Address::zero() {
            assert(!self.operators[Grant { owner: Address::zero(), operator: caller }]);
            assert(self.approvals[token_id] == Address::zero());
        }
    }

    /// An approval that passes its check for a caller that is an account
    /// names a spender for a token that is minted.
    pub proof fn lemma_approve_concerns_minted_token(self, caller: Address, token_id: U256)
        requires
            self.consistent(),
            caller != Address::zero(),
            self.approve_verdict(caller, token_id) is Ok,
        ensures
            self.owners[token_id] != Address::zero(),
    {
        if self.owners[token_id] == Address::zero() {
            assert(!self.operators[Grant { owner: Address::zero(), operator: caller }]);
        }
    }

    /// A successful mint keeps the ledger consistent.
    pub proof fn lemma_mint_keeps_consistent(self, to: Address, token_id: U256)
        requires
            self.consistent(),
            self.mint_verdict(to, token_id) is Ok,
        ensures
            self.after_mint(to, token_id).consistent(),
    {
        let next = self.after_mint(to, token_id);
        assert(next.minted() =~= self.minted().insert(token_id));
        assert(next.holders() =~= self.holders().insert(to));
        assert forall|account: Address| account != Address::zero() implies next.balances[account]
            == #[trigger] next.tokens_of(account).len() by {
            self.lemma_tokens_of_finite(account);
            if account == to {
                assert(next.tokens_of(account) =~= self.tokens_of(account).insert(token_id));
            } else {
                assert(next.tokens_of(account) =~= self.tokens_of(account));
            }
        }
        assert forall|id: U256|
            (#[trigger] next.owners[id] != Address::zero()) == minted_since_last_burn(
                next.events,
                id,
            ) by {
            assert(next.events.drop_last() =~= self.events);
            assert(self.owners[id] != Address::zero() == minted_since_last_burn(self.events, id));
        }
    }

    /// A successful burn keeps the ledger consistent.
    pub proof fn lemma_burn_keeps_consistent(self, token_id: U256)
        requires
            self.consistent(),
            self.burn_verdict(token_id) is Ok,
        ensures
            self.after_burn(token_id).consistent(),
    {
        let next = self.after_burn(token_id);
        let owner = self.owners[token_id];
        self.lemma_owner_has_balance(token_id);
        assert(next.minted() =~= self.minted().remove(token_id));
        vstd::set_lib::lemma_len_subset(next.holders(), self.holders());
        assert forall|account: Address| account != Address::zero() implies next.balances[account]
            == #[trigger] next.tokens_of(account).len() by {
            self.lemma_tokens_of_finite(account);
            if account == owner {
                assert(next.tokens_of(account) =~= self.tokens_of(account).remove(token_id));
            } else {
                assert(next.tokens_of(account) =~= self.tokens_of(account));
            }
        }
        assert forall|id: U256|
            (#[trigger] next.owners[id] != Address::zero()) == minted_since_last_burn(
                next.events,
                id,
            ) by {
            assert(next.events.drop_last() =~= self.events);
            assert(self.owners[id] != Address::zero() == minted_since_last_burn(self.events, id));
        }
    }

    /// A successful transfer on behalf of an account keeps the ledger consistent.
    pub proof fn lemma_transfer_keeps_consistent(
        self,
        caller: Address,
        from: Address,
        to: Address,
        token_id: U256,
    )
        requires
            self.consistent(),
            caller != Address::zero(),
            self.transfer_verdict(caller, from, to, token_id) is Ok,
        ensures
            self.after_transfer(from, to, token_id).consistent(),
    {
        let next = self.after_transfer(from, to, token_id);
        self.lemma_transfer_moves_minted_token(caller, from, to, token_id);
        self.lemma_owner_has_balance(token_id);
        assert(next.minted() =~= self.minted());
        vstd::set_lib::lemma_len_subset(next.holders(), self.holders().insert(to));
        assert forall|account: Address| account != Address::zero() implies next.balances[account]
            == #[trigger] next.tokens_of(account).len() by {
            self.lemma_tokens_of_finite(account);
            if from == to {
                assert(next.tokens_of(account) =~= self.tokens_of(account));
            } else if account == from {
                assert(next.tokens_of(account) =~= self.tokens_of(account).remove(token_id));
            } else if account == to {
                assert(next.tokens_of(account) =~= self.tokens_of(account).insert(token_id));
            } else {
                assert(next.tokens_of(account) =~= self.tokens_of(account));
            }
        }
        assert forall|id: U256|
            (#[trigger] next.owners[id] != Address::zero()) == minted_since_last_burn(
                next.events,
                id,
            ) by {
            assert(next.events.drop_last() =~= self.events);
            assert(self.owners[id] != Address::zero() == minted_since_last_burn(self.events, id));
        }
    }

    /// A successful approval by an account keeps the ledger consistent.
    pub proof fn lemma_approve_keeps_consistent(self, caller: Address, spender: Address, token_id: U256)
        requires
            self.consistent(),
            caller != Address::zero(),
            self.approve_verdict(caller, token_id) is Ok,
        ensures
            self.after_approve(spender, token_id).consistent(),
    {
        let next = self.after_approve(spender, token_id);
        self.lemma_approve_concerns_minted_token(caller, token_id);
        assert(next.minted() =~= self.minted());
        assert(next.holders() =~= self.holders());
        assert forall|account: Address| account != Address::zero() implies next.balances[account]
            == #[trigger] next.tokens_of(account).len() by {
            assert(next.tokens_of(account) =~= self.tokens_of(account));
        }
        assert forall|id: U256|
            (#[trigger] next.owners[id] != Address::zero()) == minted_since_last_burn(
                next.events,
                id,
            ) by {
            assert(next.events.drop_last() =~= self.events);
            assert(self.owners[id] != Address::zero() == minted_since_last_burn(self.events, id));
        }
    }

    /// A grant or withdrawal of the operator role by an account keeps the
    /// ledger consistent.
    pub proof fn lemma_set_approval_for_all_keeps_consistent(
        self,
        caller: Address,
        operator: Address,
        approved: bool,
    )
        requires
            self.consistent(),
            caller != Address::zero(),
        ensures
            self.after_set_approval_for_all(caller, operator, approved).consistent(),
    {
        let next = self.after_set_approval_for_all(caller, operator, approved);
        assert(next.minted() =~= self.minted());
        assert(next.holders() =~= self.holders());
        assert forall|account: Address| account != Address::zero() implies next.balances[account]
            == #[trigger] next.tokens_of(account).len() by {
            assert(next.tokens_of(account) =~= self.tokens_of(account));
        }
        assert forall|id: U256|
            (#[trigger] next.owners[id] != Address::zero()) == minted_since_last_burn(
                next.events,
                id,
            ) by {
            assert(next.events.drop_last() =~= self.events);
            assert(self.owners[id] != Address::zero() == minted_since_last_burn(self.events, id));
        }
    }

    /// Every operation on behalf of an account keeps the ledger consistent,
    /// whether it succeeds or fails.
    pub proof fn lemma_apply_keeps_consistent(self, operation: Operation)
        requires
            self.consistent(),
            operation.by_account(),
        ensures
            self.apply(operation).consistent(),
    {
        if self.outcome(operation) is Ok {
            match operation {
                Operation::Mint { to, token_id } => {
                    self.lemma_mint_keeps_consistent(to, token_id);
                },
                Operation::SafeMint { to, token_id, receiver } => {
                    self.lemma_mint_keeps_consistent(to, token_id);
                },
                Operation::Burn { token_id } => {
                    self.lemma_burn_keeps_consistent(token_id);
                },
                Operation::Transfer { caller, from, to, token_id } => {
                    self.lemma_transfer_keeps_consistent(caller, from, to, token_id);
                },
                Operation::SafeTransfer { caller, from, to, token_id, receiver } => {
                    self.lemma_transfer_keeps_consistent(caller, from, to, token_id);
                },
                Operation::Approve { caller, spender, token_id } => {
                    self.lemma_approve_keeps_consistent(caller, spender, token_id);
                },
                Operation::SetApprovalForAll { caller, operator, approved } => {
                    self.lemma_set_approval_for_all_keeps_consistent(caller, operator, approved);
                },
            }
        }
    }

    /// Every state that operations on behalf of accounts reach from the fresh
    /// ledger is consistent.
    pub proof fn lemma_reachable_is_consistent(operations: Seq<Operation>)
        requires
            forall|i: int| 0 <= i < operations.len() ==> (#[trigger] operations[i]).by_account(),
        ensures
            Self::replay(operations).consistent(),
        decreases operations.len(),
    {
        if operations.len() == 0 {
            Self::lemma_fresh_is_consistent();
        } else {
            Self::lemma_reachable_is_consistent(operations.drop_last());
            Self::replay(operations.drop_last()).lemma_apply_keeps_consistent(operations.last());
        }
    }

    /// In every reachable state the balances of all accounts add up to the
    /// number of tokens that have an owner.
    pub proof fn lemma_reachable_balances_add_up_to_supply(operations: Seq<Operation>)
        requires
            forall|i: int| 0 <= i < operations.len() ==> (#[trigger] operations[i]).by_account(),
        ensures
            Self::replay(operations).total_balance() == Self::replay(operations).minted().len(),
    {
        Self::lemma_reachable_is_consistent(operations);
        Self::replay(operations).lemma_total_balance_is_supply();
    }

    /// In every reachable state a token is without an owner exactly if the
    /// log shows no mint of it since its last burn, or none at all.
    pub proof fn lemma_reachable_owner_follows_mints_and_burns(
        operations: Seq<Operation>,
        token_id: U256,
    )
        requires
            forall|i: int| 0 <= i < operations.len() ==> (#[trigger] operations[i]).by_account(),
        ensures
            Self::replay(operations).owners[token_id] == Address::zero()
                <==> !minted_since_last_burn(Self::replay(operations).events, token_id),
    {
        Self::lemma_reachable_is_consistent(operations);
    }

    /// In every reachable state a token is without an owner exactly if no
    /// mint of it has succeeded since its last successful burn, or ever.
    pub proof fn lemma_reachable_owner_iff_minted_and_not_burned(
        operations: Seq<Operation>,
        token_id: U256,
    )
        requires
            forall|i: int| 0 <= i < operations.len() ==> (#[trigger] operations[i]).by_account(),
        ensures
            Self::replay(operations).owners[token_id] == Address::zero()
                <==> !Self::minted_and_not_burned(operations, token_id),
        decreases operations.len(),
    {
        if operations.len() > 0 {
            let earlier = operations.drop_last();
            let before = Self::replay(earlier);
            Self::lemma_reachable_owner_iff_minted_and_not_burned(earlier, token_id);
            Self::lemma_reachable_is_consistent(earlier);
            if before.outcome(operations.last()) is Ok {
                match operations.last() {
                    Operation::Transfer { caller, from, to, token_id: moved } => {
                        before.lemma_transfer_moves_minted_token(caller, from, to, moved);
                    },
                    Operation::SafeTransfer { caller, from, to, token_id: moved, receiver } => {
                        before.lemma_transfer_moves_minted_token(caller, from, to, moved);
                    },
                    _ => {},
                }
            }
        }
    }

    /// The answer of `authorized` depends on the two grants alone: on an
    /// unchanged ledger a second reading gives the same answer.
    pub proof fn lemma_authorization_reads_agree(
        self,
        other: LedgerState,
        caller: Address,
        token_owner: Address,
        token_id: U256,
    )
        requires
            self.approvals[token_id] == other.approvals[token_id],
            self.operators[Grant { owner: token_owner, operator: caller }]
                == other.operators[Grant { owner: token_owner, operator: caller }],
        ensures
            self.authorized(caller, token_owner, token_id) == other.authorized(
                caller,
                token_owner,
                token_id,
            ),
    {
    }

    /// After a successful transfer or burn of a token, by whichever
    /// operation, the token has no approved spender.
    pub proof fn lemma_moved_token_has_no_spender(self, operation: Operation, token_id: U256)
        requires
            self.outcome(operation) is Ok,
            operation.moves_or_burns(token_id),
        ensures
            self.apply(operation).approvals[token_id] == Address::zero(),
    {
    }
}

} // verus!
