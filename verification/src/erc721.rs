//! The ledger itself: the store, the event log and the operations on them.

use crate::error::{CallFailed, Erc721Error, UnsafeRecipient};
use crate::event::Event;
use crate::model::{LedgerState, Operation};
use crate::primitives::{Address, Caller, U256};
use crate::receiver::{
    receipt_verdict, u32_from_be_bytes, HookOutcome, Receiver, ERC721_TOKEN_RECEIVER_ID,
};
use crate::rules;
use crate::store::LedgerStore;
use core::marker::PhantomData;
use vstd::prelude::*;

verus! {

/// The two strings that name a collection; fixed once and for all.
pub trait Erc721Params {
    const NAME: &'static str;

    const SYMBOL: &'static str;
}

/// A ledger of the collection that `T` names.
pub struct Erc721<T> {
    store: LedgerStore,
    events: Vec<Event>,
    phantom: PhantomData<T>,
}

impl<T: Erc721Params> Erc721<T> {
    /// The state of the ledger.
    pub closed spec fn view(&self) -> LedgerState {
        LedgerState {
            owners: self.store.owners(),
            balances: Map::total(|account: Address| self.store.balances()[account].value()),
            approvals: self.store.approvals(),
            operators: self.store.operators(),
            events: self.events@,
        }
    }

    /// The ledger is one that `new` and the operations produce.
    pub closed spec fn wf(&self) -> bool {
        &&& self.store.wf()
        &&& self@.consistent()
    }

    /// A ledger that `new` and the operations produce is consistent, and
    /// holds no more tokens than fit in memory.
    pub proof fn lemma_wf_is_consistent(&self)
        requires
            self.wf(),
        ensures
            self@.consistent(),
            self@.minted().len() <= usize::MAX,
    {
        self.store.lemma_finitely_many();
        assert(self@.minted() =~= Set::new(|id: U256| self.store.owners()[id] != Address::zero()));
    }

    /// In a ledger that `new` and the operations produce, the balances of all
    /// accounts add up to the number of tokens that have an owner.
    pub proof fn lemma_balances_add_up_to_supply(&self)
        requires
            self.wf(),
        ensures
            self@.total_balance() == self@.minted().len(),
    {
        self@.lemma_total_balance_is_supply();
    }

    /// The ledger before any operation.
    pub fn new() -> (ledger: Self)
        ensures
            ledger.wf(),
            ledger@ == LedgerState::fresh(),
    {
        let ledger = Erc721 { store: LedgerStore::new(), events: Vec::new(), phantom: PhantomData };
        proof {
            assert(ledger@.balances =~= LedgerState::fresh().balances);
            LedgerState::lemma_fresh_is_consistent();
        }
        ledger
    }

    /// The name of the collection.
    pub fn name() -> (name: Result<String, Vec<u8>>)
        ensures
            name matches Ok(s) && s@ == T::NAME@,
    {
        Ok(T::NAME.to_string())
    }

    /// The symbol of the collection.
    pub fn symbol() -> (symbol: Result<String, Vec<u8>>)
        ensures
            symbol matches Ok(s) && s@ == T::SYMBOL@,
    {
        Ok(T::SYMBOL.to_string())
    }

    /// The number of tokens that `owner` holds.
    pub fn balance_of(&self, owner: Address) -> (balance: Result<U256, Erc721Error>)
        requires
            self.wf(),
        ensures
            balance matches Ok(b) && b.value() == self@.balances[owner],
    {
        Ok(self.store.balance(owner))
    }

    /// The owner of `token_id`; zero where the token is not minted.
    pub fn owner_of(&self, token_id: U256) -> (owner: Result<Address, Erc721Error>)
        requires
            self.wf(),
        ensures
            owner == Ok::<Address, Erc721Error>(self@.owners[token_id]),
    {
        Ok(self.store.owner(token_id))
    }

    /// The approved spender of `token_id`; zero where there is none.
    pub fn get_approved(&self, token_id: U256) -> (spender: Result<Address, Erc721Error>)
        requires
            self.wf(),
        ensures
            spender == Ok::<Address, Erc721Error>(self@.approvals[token_id]),
    {
        Ok(self.store.approved(token_id))
    }

    /// Whether `owner` has made `operator` its operator.
    pub fn is_approved_for_all(&self, owner: Address, operator: Address) -> (granted: Result<
        bool,
        Erc721Error,
    >)
        requires
            self.wf(),
        ensures
            granted == Ok::<bool, Erc721Error>(
                self@.operators[crate::store::Grant { owner, operator }],
            ),
    {
        Ok(self.store.operator(owner, operator))
    }

    /// The events emitted so far, oldest first.
    pub fn events(&self) -> (log: &Vec<Event>)
        ensures
            log@ == self@.events,
    {
        &self.events
    }

    /// Whether `caller` may act on `token_id`, a token of `token_owner`: as
    /// the owner, as an operator of the owner or as the approved spender.
    pub fn is_authorized(&self, caller: Address, token_owner: Address, token_id: U256) -> (ok: bool)
        requires
            self.wf(),
        ensures
            ok == self@.authorized(caller, token_owner, token_id),
    {
        rules::is_authorized(
            caller,
            token_owner,
            self.store.approved(token_id),
            self.store.operator(token_owner, caller),
        )
    }

    /// Names `spender` as the approved spender of `token_id`. Fails with
    /// `NotOwner` unless `caller` owns the token or is an operator of its
    /// owner.
    pub fn approve(&mut self, caller: Caller, spender: Address, token_id: U256) -> (done: Result<
        (),
        Erc721Error,
    >)
        requires
            old(self).wf(),
        ensures
            final(self).wf(),
            done == old(self)@.approve_verdict(caller@, token_id),
            final(self)@ == if done is Ok {
                old(self)@.after_approve(spender, token_id)
            } else {
                old(self)@
            },
            final(self)@ == old(self)@.apply(
                Operation::Approve { caller: caller@, spender, token_id },
            ),
    {
        let owner = self.store.owner(token_id);
        let by = caller.account();
        match rules::check_approve(by, token_id, owner, self.store.operator(owner, by)) {
            Err(error) => {
                return Err(error);
            },
            Ok(()) => {},
        }
        self.store.set_approved(token_id, spender);
        self.events.push(Event::Approval { owner, spender, token_id });
        proof {
            let before = old(self)@;
            assert(self@.balances =~= before.balances);
            assert(self@ == before.after_approve(spender, token_id));
            before.lemma_approve_keeps_consistent(by, spender, token_id);
        }
        Ok(())
    }

    /// Grants (`approved`) or withdraws the operator role of `operator` over
    /// the tokens of `caller`. Always succeeds.
    pub fn set_approval_for_all(&mut self, caller: Caller, operator: Address, approved: bool) -> (done:
        Result<(), Erc721Error>)
        requires
            old(self).wf(),
        ensures
            final(self).wf(),
            done is Ok,
            final(self)@ == old(self)@.after_set_approval_for_all(caller@, operator, approved),
            final(self)@ == old(self)@.apply(
                Operation::SetApprovalForAll { caller: caller@, operator, approved },
            ),
    {
        let by = caller.account();
        self.store.set_operator(by, operator, approved);
        self.events.push(Event::ApprovalForAll { owner: by, operator, approved });
        proof {
            let before = old(self)@;
            assert(self@.balances =~= before.balances);
            assert(self@ == before.after_set_approval_for_all(by, operator, approved));
            before.lemma_set_approval_for_all_keeps_consistent(by, operator, approved);
        }
        Ok(())
    }

    /// What a transfer on behalf of `caller` would fail on in this state,
    /// if anything; the ledger stays as it is.
    pub fn check_transfer(&self, caller: Caller, from: Address, to: Address, token_id: U256) -> (verdict:
        Result<(), Erc721Error>)
        requires
            self.wf(),
        ensures
            verdict == self@.transfer_verdict(caller@, from, to, token_id),
    {
        let by = caller.account();
        rules::check_transfer(
            by,
            from,
            to,
            token_id,
            self.store.owner(token_id),
            self.store.approved(token_id),
            self.store.operator(from, by),
        )
    }

    /// What a mint of `token_id` to `to` would fail on in this state, if
    /// anything; the ledger stays as it is.
    pub fn check_mint(&self, to: Address, token_id: U256) -> (verdict: Result<(), Erc721Error>)
        requires
            self.wf(),
        ensures
            verdict == self@.mint_verdict(to, token_id),
    {
        rules::check_mint(to, token_id, self.store.owner(token_id))
    }

    /// Moves `token_id` from `from` to `to`, once the checks have passed.
    fn apply_transfer(&mut self, caller: Address, from: Address, to: Address, token_id: U256)
        requires
            old(self).wf(),
            caller != Address::zero(),
            old(self)@.transfer_verdict(caller, from, to, token_id) is Ok,
        ensures
            final(self).wf(),
            final(self)@ == old(self)@.after_transfer(from, to, token_id),
    {
        let ghost before = self@;
        proof {
            self.lemma_wf_is_consistent();
            before.lemma_transfer_moves_minted_token(caller, from, to, token_id);
            before.lemma_owner_has_balance(token_id);
            before.lemma_balance_at_most_supply(to);
        }
        let from_balance = self.store.balance(from);
        let debited = rules::debit(from_balance).unwrap();
        self.store.set_balance(from, debited);
        let to_balance = self.store.balance(to);
        let credited = rules::credit(to_balance).unwrap();
        self.store.set_balance(to, credited);
        self.store.set_owner(token_id, to);
        self.store.set_approved(token_id, Address::zero());
        self.events.push(Event::Transfer { from, to, token_id });
        proof {
            assert(self@.balances =~= before.after_transfer(from, to, token_id).balances);
            assert(self@ == before.after_transfer(from, to, token_id));
            before.lemma_transfer_keeps_consistent(caller, from, to, token_id);
        }
    }

    /// Moves `token_id` from `from` to `to` on behalf of `caller`. Fails
    /// with `NotOwner` where `from` does not own the token, else with
    /// `InvalidRecipient` where `to` is zero, else with `NotAuthorized` where
    /// `caller` is not authorized. On success the token has no approved
    /// spender any more.
    pub fn transfer_from(&mut self, caller: Caller, from: Address, to: Address, token_id: U256) -> (done:
        Result<(), Erc721Error>)
        requires
            old(self).wf(),
        ensures
            final(self).wf(),
            done == old(self)@.transfer_verdict(caller@, from, to, token_id),
            final(self)@ == if done is Ok {
                old(self)@.after_transfer(from, to, token_id)
            } else {
                old(self)@
            },
            done is Ok ==> final(self)@.approvals[token_id] == Address::zero(),
            final(self)@ == old(self)@.apply(
                Operation::Transfer { caller: caller@, from, to, token_id },
            ),
    {
        let by = caller.account();
        match self.check_transfer(caller, from, to, token_id) {
            Err(error) => {
                return Err(error);
            },
            Ok(()) => {},
        }
        self.apply_transfer(by, from, to, token_id);
        Ok(())
    }

    /// As `transfer_from`, but the transfer stands only if the recipient
    /// takes the token: `receiver` says what the host found out about `to`,
    /// which asks the acceptance hook only where `check_transfer` passes.
    /// Where the transfer passes its checks and the recipient does not, the
    /// ledger is left as it was and no event is logged.
    pub fn safe_transfer_from(
        &mut self,
        caller: Caller,
        from: Address,
        to: Address,
        token_id: U256,
        receiver: Receiver,
    ) -> (done: Result<(), Erc721Error>)
        requires
            old(self).wf(),
        ensures
            final(self).wf(),
            done == if old(self)@.transfer_verdict(caller@, from, to, token_id) is Err {
                old(self)@.transfer_verdict(caller@, from, to, token_id)
            } else {
                receipt_verdict(to, receiver)
            },
            final(self)@ == if done is Ok {
                old(self)@.after_transfer(from, to, token_id)
            } else {
                old(self)@
            },
            done is Ok ==> final(self)@.approvals[token_id] == Address::zero(),
            final(self)@ == old(self)@.apply(
                Operation::SafeTransfer { caller: caller@, from, to, token_id, receiver },
            ),
    {
        let by = caller.account();
        match self.check_transfer(caller, from, to, token_id) {
            Err(error) => {
                return Err(error);
            },
            Ok(()) => {},
        }
        match Self::_check_recipient_is_valid(to, receiver) {
            Err(error) => {
                return Err(error);
            },
            Ok(()) => {},
        }
        self.apply_transfer(by, from, to, token_id);
        Ok(())
    }

    /// Gives `token_id` to `to`, once the checks have passed.
    fn apply_mint(&mut self, to: Address, token_id: U256)
        requires
            old(self).wf(),
            old(self)@.mint_verdict(to, token_id) is Ok,
        ensures
            final(self).wf(),
            final(self)@ == old(self)@.after_mint(to, token_id),
    {
        let ghost before = self@;
        proof {
            self.lemma_wf_is_consistent();
            before.lemma_balance_at_most_supply(to);
        }
        let to_balance = self.store.balance(to);
        let credited = rules::credit(to_balance).unwrap();
        self.store.set_balance(to, credited);
        self.store.set_owner(token_id, to);
        self.events.push(Event::Transfer { from: Address::zero(), to, token_id });
        proof {
            assert(self@.balances =~= before.after_mint(to, token_id).balances);
            assert(self@ == before.after_mint(to, token_id));
            before.lemma_mint_keeps_consistent(to, token_id);
        }
    }

    /// Brings `token_id` into being as a token of `to`. Fails with
    /// `InvalidRecipient` where `to` is zero, else with `AlreadyMinted` where
    /// the token has an owner.
    pub fn _mint(&mut self, to: Address, token_id: U256) -> (done: Result<(), Erc721Error>)
        requires
            old(self).wf(),
        ensures
            final(self).wf(),
            done == old(self)@.mint_verdict(to, token_id),
            final(self)@ == if done is Ok {
                old(self)@.after_mint(to, token_id)
            } else {
                old(self)@
            },
            final(self)@ == old(self)@.apply(Operation::Mint { to, token_id }),
    {
        match self.check_mint(to, token_id) {
            Err(error) => {
                return Err(error);
            },
            Ok(()) => {},
        }
        self.apply_mint(to, token_id);
        Ok(())
    }

    /// Ends `token_id`: its owner loses it and its approved spender is
    /// forgotten. Fails with `NotMinted` where the token has no owner.
    pub fn _burn(&mut self, token_id: U256) -> (done: Result<(), Erc721Error>)
        requires
            old(self).wf(),
        ensures
            final(self).wf(),
            done == old(self)@.burn_verdict(token_id),
            final(self)@ == if done is Ok {
                old(self)@.after_burn(token_id)
            } else {
                old(self)@
            },
            done is Ok ==> final(self)@.approvals[token_id] == Address::zero(),
            final(self)@ == old(self)@.apply(Operation::Burn { token_id }),
    {
        let owner = self.store.owner(token_id);
        match rules::check_burn(token_id, owner) {
            Err(error) => {
                return Err(error);
            },
            Ok(()) => {},
        }
        let ghost before = self@;
        proof {
            self.lemma_wf_is_consistent();
            before.lemma_owner_has_balance(token_id);
        }
        let owner_balance = self.store.balance(owner);
        let debited = rules::debit(owner_balance).unwrap();
        self.store.set_balance(owner, debited);
        self.store.set_owner(token_id, Address::zero());
        self.store.set_approved(token_id, Address::zero());
        self.events.push(Event::Transfer { from: owner, to: Address::zero(), token_id });
        proof {
            assert(self@.balances =~= before.after_burn(token_id).balances);
            assert(self@ == before.after_burn(token_id));
            before.lemma_burn_keeps_consistent(token_id);
        }
        Ok(())
    }

    /// As `_mint`, but the mint stands only if the recipient takes the
    /// token: `receiver` says what the host found out about `to`, which asks
    /// the acceptance hook only where `check_mint` passes. Where the mint
    /// passes its checks and the recipient does not, the ledger is left as it
    /// was and no event is logged.
    pub fn _safe_mint(&mut self, to: Address, token_id: U256, receiver: Receiver) -> (done: Result<
        (),
        Erc721Error,
    >)
        requires
            old(self).wf(),
        ensures
            final(self).wf(),
            done == if old(self)@.mint_verdict(to, token_id) is Err {
                old(self)@.mint_verdict(to, token_id)
            } else {
                receipt_verdict(to, receiver)
            },
            final(self)@ == if done is Ok {
                old(self)@.after_mint(to, token_id)
            } else {
                old(self)@
            },
            final(self)@ == old(self)@.apply(Operation::SafeMint { to, token_id, receiver }),
    {
        match self.check_mint(to, token_id) {
            Err(error) => {
                return Err(error);
            },
            Ok(()) => {},
        }
        match Self::_check_recipient_is_valid(to, receiver) {
            Err(error) => {
                return Err(error);
            },
            Ok(()) => {},
        }
        self.apply_mint(to, token_id);
        Ok(())
    }

    /// Judges the recipient `to` of a safe transfer or mint: a plain account
    /// passes; a program passes if its acceptance hook completed, else
    /// `CallFailed`, and returned the acknowledgment, else `UnsafeRecipient`.
    pub fn _check_recipient_is_valid(to: Address, receiver: Receiver) -> (verdict: Result<
        (),
        Erc721Error,
    >)
        ensures
            verdict == receipt_verdict(to, receiver),
    {
        match receiver {
            Receiver::Account => Ok(()),
            Receiver::Program(HookOutcome::Failed) => Err(
                Erc721Error::CallFailed(CallFailed {  }),
            ),
            Receiver::Program(HookOutcome::Returned(bytes)) => {
                if u32_from_be_bytes(bytes) != ERC721_TOKEN_RECEIVER_ID {
                    return Err(Erc721Error::UnsafeRecipient(UnsafeRecipient { recipient: to }));
                }
                Ok(())
            },
        }
    }
}

} // verus!
