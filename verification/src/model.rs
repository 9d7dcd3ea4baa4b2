//! The ledger as a mathematical state, its operations as functions from state
//! to state, and the accounting laws that every operation keeps.

use crate::error::Erc721Error;
use crate::event::Event;
use crate::primitives::{Address, U256};
use crate::receiver::{receipt_verdict, Receiver};
use crate::rules;
use crate::store::Grant;
use vstd::prelude::*;

verus! {

/// The state of a ledger: four relations, each with a value for every key,
/// and the log of the events emitted so far.
pub struct LedgerState {
    /// The owner of each token; zero where the token is not minted.
    pub owners: Map<U256, Address>,
    /// The number of tokens that each account is credited with.
    pub balances: Map<Address, nat>,
    /// The approved spender of each token; zero where there is none.
    pub approvals: Map<U256, Address>,
    /// Whether `grant.owner` has made `grant.operator` its operator.
    pub operators: Map<Grant, bool>,
    /// The events emitted so far, oldest first.
    pub events: Seq<Event>,
}

/// Whether, going by the log, `token_id` was minted after it was last burned
/// (or minted and never burned): a plain transfer changes nothing, a burn
/// ends the token and a mint starts it.
pub open spec fn minted_since_last_burn(events: Seq<Event>, token_id: U256) -> bool
    decreases events.len(),
{
    if events.len() == 0 {
        false
    } else {
        let earlier = minted_since_last_burn(events.drop_last(), token_id);
        match events.last() {
            Event::Transfer { from, to, token_id: moved } => {
                if moved != token_id {
                    earlier
                } else if to == Address::zero() {
                    false
                } else if from == Address::zero() {
                    true
                } else {
                    earlier
                }
            },
            _ => earlier,
        }
    }
}

/// One call of an operation of the ledger, with its arguments.
pub enum Operation {
    Mint { to: Address, token_id: U256 },
    SafeMint { to: Address, token_id: U256, receiver: Receiver },
    Burn { token_id: U256 },
    Transfer { caller: Address, from: Address, to: Address, token_id: U256 },
    SafeTransfer { caller: Address, from: Address, to: Address, token_id: U256, receiver: Receiver },
    Approve { caller: Address, spender: Address, token_id: U256 },
    SetApprovalForAll { caller: Address, operator: Address, approved: bool },
}

impl Operation {
    /// The caller of the operation, where it has one, is an account and not
    /// the zero sentinel.
    pub open spec fn by_account(self) -> bool {
        match self {
            Operation::Transfer { caller, .. } => caller != Address::zero(),
            Operation::SafeTransfer { caller, .. } => caller != Address::zero(),
            Operation::Approve { caller, .. } => caller != Address::zero(),
            Operation::SetApprovalForAll { caller, .. } => caller != Address::zero(),
            _ => true,
        }
    }

    /// The operation is a mint or a safe mint of `token_id`.
    pub open spec fn mints(self, token_id: U256) -> bool {
        match self {
            Operation::Mint { token_id: minted, .. } => minted == token_id,
            Operation::SafeMint { token_id: minted, .. } => minted == token_id,
            _ => false,
        }
    }

    /// The operation is a burn of `token_id`.
    pub open spec fn burns(self, token_id: U256) -> bool {
        match self {
            Operation::Burn { token_id: burned } => burned == token_id,
            _ => false,
        }
    }

    /// The operation is a transfer, a safe transfer or a burn of `token_id`.
    pub open spec fn moves_or_burns(self, token_id: U256) -> bool {
        match self {
            Operation::Transfer { token_id: moved, .. } => moved == token_id,
            Operation::SafeTransfer { token_id: moved, .. } => moved == token_id,
            Operation::Burn { token_id: moved } => moved == token_id,
            _ => false,
        }
    }
}

impl LedgerState {
    /// The ledger before any operation.
    pub open spec fn fresh() -> LedgerState {
        LedgerState {
            owners: Map::total(|id: U256| Address::zero()),
            balances: Map::total(|account: Address| 0nat),
            approvals: Map::total(|id: U256| Address::zero()),
            operators: Map::total(|grant: Grant| false),
            events: Seq::empty(),
        }
    }

    /// The tokens that have an owner.
    pub open spec fn minted(self) -> Set<U256> {
        Set::new(|id: U256| self.owners[id] != Address::zero())
    }

    /// The tokens that `account` owns.
    pub open spec fn tokens_of(self, account: Address) -> Set<U256> {
        Set::new(|id: U256| self.owners[id] == account)
    }

    /// The accounts with a balance above zero.
    pub open spec fn holders(self) -> Set<Address> {
        Set::new(|account: Address| self.balances[account] > 0)
    }

    /// Adds the balance of `account` to `sum`.
    pub open spec fn add_balance(self) -> spec_fn(nat, Address) -> nat {
        |sum: nat, account: Address| sum + self.balances[account]
    }

    /// The sum of the balances of the given accounts.
    pub open spec fn sum_of_balances(self, accounts: Set<Address>) -> nat {
        accounts.fold(0nat, self.add_balance())
    }

    /// The tokens that are owned by one of the given accounts.
    pub open spec fn tokens_held_by(self, accounts: Set<Address>) -> Set<U256> {
        Set::new(|id: U256| accounts.contains(self.owners[id]))
    }

    /// The sum of the balances of all accounts: all but the holders have zero.
    pub open spec fn total_balance(self) -> nat {
        self.sum_of_balances(self.holders())
    }

    /// Whether `caller` may act on `token_id`, a token of `token_owner`.
    pub open spec fn authorized(self, caller: Address, token_owner: Address, token_id: U256) -> bool {
        rules::authorized(
            caller,
            token_owner,
            self.approvals[token_id],
            self.operators[Grant { owner: token_owner, operator: caller }],
        )
    }

    /// What holds of every state that the operations reach from `fresh`:
    /// each account's balance is the number of tokens it owns, the zero
    /// sentinel holds nothing and grants nothing, only minted tokens have a
    /// spender, and a token has an owner exactly if the log shows a mint of
    /// it since its last burn.
    pub open spec fn consistent(self) -> bool {
        &&& self.minted().finite()
        &&& self.holders().finite()
        &&& self.balances[Address::zero()] == 0
        &&& forall|account: Address|
            #![trigger self.tokens_of(account)]
            #![trigger self.balances[account]]
            account != Address::zero() ==> self.balances[account] == self.tokens_of(account).len()
        &&& forall|operator: Address|
            !#[trigger] self.operators[Grant { owner: Address::zero(), operator }]
        &&& forall|id: U256| #[trigger]
            self.approvals[id] != Address::zero() ==> self.owners[id] != Address::zero()
        &&& forall|id: U256|
            (#[trigger] self.owners[id] != Address::zero()) == minted_since_last_burn(
                self.events,
                id,
            )
    }

    /// What `mint` fails on in this state, if anything.
    pub open spec fn mint_verdict(self, to: Address, token_id: U256) -> Result<(), Erc721Error> {
        rules::mint_verdict(to, token_id, self.owners[token_id])
    }

    /// The state after a mint of `token_id` to `to`.
    pub open spec fn after_mint(self, to: Address, token_id: U256) -> LedgerState {
        LedgerState {
            owners: self.owners.insert(token_id, to),
            balances: self.balances.insert(to, self.balances[to] + 1),
            events: self.events.push(Event::Transfer { from: Address::zero(), to, token_id }),
            ..self
        }
    }

    /// What `burn` fails on in this state, if anything.
    pub open spec fn burn_verdict(self, token_id: U256) -> Result<(), Erc721Error> {
        rules::burn_verdict(token_id, self.owners[token_id])
    }

    /// The state after a burn of `token_id`.
    pub open spec fn after_burn(self, token_id: U256) -> LedgerState {
        let owner = self.owners[token_id];
        LedgerState {
            owners: self.owners.insert(token_id, Address::zero()),
            balances: self.balances.insert(owner, (self.balances[owner] - 1) as nat),
            approvals: self.approvals.insert(token_id, Address::zero()),
            events: self.events.push(Event::Transfer { from: owner, to: Address::zero(), token_id }),
            ..self
        }
    }

    /// What a transfer on behalf of `caller` fails on in this state, if
    /// anything.
    pub open spec fn transfer_verdict(
        self,
        caller: Address,
        from: Address,
        to: Address,
        token_id: U256,
    ) -> Result<(), Erc721Error> {
        rules::transfer_verdict(
            caller,
            from,
            to,
            token_id,
            self.owners[token_id],
            self.approvals[token_id],
            self.operators[Grant { owner: from, operator: caller }],
        )
    }

    /// The state after a transfer of `token_id` from `from` to `to`: the
    /// balance of `from` goes down by one and then that of `to` up by one,
    /// also where the two are the same account.
    pub open spec fn after_transfer(self, from: Address, to: Address, token_id: U256) -> LedgerState {
        let debited = self.balances.insert(from, (self.balances[from] - 1) as nat);
        LedgerState {
            owners: self.owners.insert(token_id, to),
            balances: debited.insert(to, debited[to] + 1),
            approvals: self.approvals.insert(token_id, Address::zero()),
            events: self.events.push(Event::Transfer { from, to, token_id }),
            ..self
        }
    }

    /// What an approval by `caller` fails on in this state, if anything.
    pub open spec fn approve_verdict(self, caller: Address, token_id: U256) -> Result<
        (),
        Erc721Error,
    > {
        rules::approve_verdict(
            caller,
            token_id,
            self.owners[token_id],
            self.operators[Grant { owner: self.owners[token_id], operator: caller }],
        )
    }

    /// The state after `spender` was approved for `token_id`.
    pub open spec fn after_approve(self, spender: Address, token_id: U256) -> LedgerState {
        LedgerState {
            approvals: self.approvals.insert(token_id, spender),
            events: self.events.push(
                Event::Approval { owner: self.owners[token_id], spender, token_id },
            ),
            ..self
        }
    }

    /// The state after `caller` granted or withdrew the operator role of
    /// `operator`.
    pub open spec fn after_set_approval_for_all(
        self,
        caller: Address,
        operator: Address,
        approved: bool,
    ) -> LedgerState {
        LedgerState {
            operators: self.operators.insert(Grant { owner: caller, operator }, approved),
            events: self.events.push(Event::ApprovalForAll { owner: caller, operator, approved }),
            ..self
        }
    }

    /// What `operation` returns in this state.
    pub open spec fn outcome(self, operation: Operation) -> Result<(), Erc721Error> {
        match operation {
            Operation::Mint { to, token_id } => self.mint_verdict(to, token_id),
            Operation::SafeMint { to, token_id, receiver } => if self.mint_verdict(to, token_id)
                is Err {
                self.mint_verdict(to, token_id)
            } else {
                receipt_verdict(to, receiver)
            },
            Operation::Burn { token_id } => self.burn_verdict(token_id),
            Operation::Transfer { caller, from, to, token_id } => self.transfer_verdict(
                caller,
                from,
                to,
                token_id,
            ),
            Operation::SafeTransfer { caller, from, to, token_id, receiver } => if self.transfer_verdict(
                caller,
                from,
                to,
                token_id,
            ) is Err {
                self.transfer_verdict(caller, from, to, token_id)
            } else {
                receipt_verdict(to, receiver)
            },
            Operation::Approve { caller, spender, token_id } => self.approve_verdict(
                caller,
                token_id,
            ),
            Operation::SetApprovalForAll { caller, operator, approved } => Ok(()),
        }
    }

    /// The state in which `operation` leaves this state: changed where the
    /// operation succeeds, and as it was where the operation fails.
    pub open spec fn apply(self, operation: Operation) -> LedgerState {
        if self.outcome(operation) is Err {
            self
        } else {
            match operation {
                Operation::Mint { to, token_id } => self.after_mint(to, token_id),
                Operation::SafeMint { to, token_id, receiver } => self.after_mint(to, token_id),
                Operation::Burn { token_id } => self.after_burn(token_id),
                Operation::Transfer { caller, from, to, token_id } => self.after_transfer(
                    from,
                    to,
                    token_id,
                ),
                Operation::SafeTransfer { caller, from, to, token_id, receiver } => self.after_transfer(
                    from,
                    to,
                    token_id,
                ),
                Operation::Approve { caller, spender, token_id } => self.after_approve(
                    spender,
                    token_id,
                ),
                Operation::SetApprovalForAll {
                    caller,
                    operator,
                    approved,
                } => self.after_set_approval_for_all(caller, operator, approved),
            }
        }
    }

    /// The state that the operations reach from the fresh ledger, applied in
    /// the order given.
    pub open spec fn replay(operations: Seq<Operation>) -> LedgerState
        decreases operations.len(),
    {
        if operations.len() == 0 {
            Self::fresh()
        } else {
            Self::replay(operations.drop_last()).apply(operations.last())
        }
    }

    /// Whether, among the operations applied in this order to the fresh
    /// ledger, a mint of `token_id` succeeded and no burn of it succeeded
    /// after the last such mint.
    pub open spec fn minted_and_not_burned(operations: Seq<Operation>, token_id: U256) -> bool
        decreases operations.len(),
    {
        if operations.len() == 0 {
            false
        } else {
            let earlier = operations.drop_last();
            let succeeded = Self::replay(earlier).outcome(operations.last()) is Ok;
            if succeeded && operations.last().mints(token_id) {
                true
            } else if succeeded && operations.last().burns(token_id) {
                false
            } else {
                Self::minted_and_not_burned(earlier, token_id)
            }
        }
    }
}

} // verus!
