//! The rules of the ledger as functions of plain values: who is authorized,
//! which check an operation fails, and how a balance moves by one token.

use crate::error::{
    AlreadyMinted, Erc721Error, InvalidRecipient, NotAuthorized, NotMinted, NotOwner,
};
use crate::primitives::{u256_add, u256_modulus, u256_sub, Address, U256};
use vstd::prelude::*;

verus! {

/// `caller` may act on a token of `token_owner`: it is the owner, or an
/// operator of the owner, or the approved spender of the token.
pub open spec fn authorized(
    caller: Address,
    token_owner: Address,
    approved_spender: Address,
    operator_approved: bool,
) -> bool {
    caller == token_owner || operator_approved || approved_spender == caller
}

/// Decides `authorized` from the two grants read off the ledger:
/// `approved_spender` of the token and whether `token_owner` made `caller`
/// its operator.
pub fn is_authorized(
    caller: Address,
    token_owner: Address,
    approved_spender: Address,
    operator_approved: bool,
) -> (ok: bool)
    ensures
        ok == authorized(caller, token_owner, approved_spender, operator_approved),
{
    caller == token_owner || operator_approved || approved_spender == caller
}

/// What a mint of `token_id` to `to` fails on, if anything, where the token's
/// owner is `current_owner`.
pub open spec fn mint_verdict(to: Address, token_id: U256, current_owner: Address) -> Result<
    (),
    Erc721Error,
> {
    if to == Address::zero() {
        Err(Erc721Error::InvalidRecipient(InvalidRecipient { to }))
    } else if current_owner != Address::zero() {
        Err(Erc721Error::AlreadyMinted(AlreadyMinted { token_id }))
    } else {
        Ok(())
    }
}

pub fn check_mint(to: Address, token_id: U256, current_owner: Address) -> (verdict: Result<
    (),
    Erc721Error,
>)
    ensures
        verdict == mint_verdict(to, token_id, current_owner),
{
    if to.is_zero() {
        return Err(Erc721Error::InvalidRecipient(InvalidRecipient { to }));
    }
    if !current_owner.is_zero() {
        return Err(Erc721Error::AlreadyMinted(AlreadyMinted { token_id }));
    }
    Ok(())
}

/// What a burn of `token_id` fails on, if anything.
pub open spec fn burn_verdict(token_id: U256, current_owner: Address) -> Result<(), Erc721Error> {
    if current_owner == Address::zero() {
        Err(Erc721Error::NotMinted(NotMinted { token_id }))
    } else {
        Ok(())
    }
}

pub fn check_burn(token_id: U256, current_owner: Address) -> (verdict: Result<(), Erc721Error>)
    ensures
        verdict == burn_verdict(token_id, current_owner),
{
    if current_owner.is_zero() {
        return Err(Erc721Error::NotMinted(NotMinted { token_id }));
    }
    Ok(())
}

/// What a transfer of `token_id` from `from` to `to` on behalf of `caller`
/// fails on, if anything: first a wrong `from`, then a zero recipient, then a
/// caller without authorization.
pub open spec fn transfer_verdict(
    caller: Address,
    from: Address,
    to: Address,
    token_id: U256,
    current_owner: Address,
    approved_spender: Address,
    operator_approved: bool,
) -> Result<(), Erc721Error> {
    if current_owner != from {
        Err(Erc721Error::NotOwner(NotOwner { account: from, token_id }))
    } else if to == Address::zero() {
        Err(Erc721Error::InvalidRecipient(InvalidRecipient { to }))
    } else if !authorized(caller, from, approved_spender, operator_approved) {
        Err(Erc721Error::NotAuthorized(NotAuthorized { caller }))
    } else {
        Ok(())
    }
}

pub fn check_transfer(
    caller: Address,
    from: Address,
    to: Address,
    token_id: U256,
    current_owner: Address,
    approved_spender: Address,
    operator_approved: bool,
) -> (verdict: Result<(), Erc721Error>)
    ensures
        verdict == transfer_verdict(
            caller,
            from,
            to,
            token_id,
            current_owner,
            approved_spender,
            operator_approved,
        ),
{
    if current_owner != from {
        return Err(Erc721Error::NotOwner(NotOwner { account: from, token_id }));
    }
    if to.is_zero() {
        return Err(Erc721Error::InvalidRecipient(InvalidRecipient { to }));
    }
    if !is_authorized(caller, from, approved_spender, operator_approved) {
        return Err(Erc721Error::NotAuthorized(NotAuthorized { caller }));
    }
    Ok(())
}

/// What an approval for `token_id` by `caller` fails on, if anything: only
/// the owner and the owner's operators may name a spender.
pub open spec fn approve_verdict(
    caller: Address,
    token_id: U256,
    current_owner: Address,
    operator_approved: bool,
) -> Result<(), Erc721Error> {
    if caller != current_owner && !operator_approved {
        Err(Erc721Error::NotOwner(NotOwner { account: current_owner, token_id }))
    } else {
        Ok(())
    }
}

pub fn check_approve(
    caller: Address,
    token_id: U256,
    current_owner: Address,
    operator_approved: bool,
) -> (verdict: Result<(), Erc721Error>)
    ensures
        verdict == approve_verdict(caller, token_id, current_owner, operator_approved),
{
    if caller != current_owner && !operator_approved {
        return Err(Erc721Error::NotOwner(NotOwner { account: current_owner, token_id }));
    }
    Ok(())
}

/// What the owner-only burn of `token_id` by `caller` fails on, if anything.
pub open spec fn owner_burn_verdict(caller: Address, token_id: U256, current_owner: Address) -> Result<
    (),
    Erc721Error,
> {
    if caller != current_owner {
        Err(Erc721Error::NotAuthorized(NotAuthorized { caller }))
    } else {
        burn_verdict(token_id, current_owner)
    }
}

pub fn check_owner_burn(caller: Address, token_id: U256, current_owner: Address) -> (verdict:
    Result<(), Erc721Error>)
    ensures
        verdict == owner_burn_verdict(caller, token_id, current_owner),
{
    if caller != current_owner {
        return Err(Erc721Error::NotAuthorized(NotAuthorized { caller }));
    }
    check_burn(token_id, current_owner)
}

/// The balance of an account that receives one token; `None` where the
/// balance is already 2^256 - 1.
pub fn credit(balance: U256) -> (credited: Option<U256>)
    ensures
        credited is Some <==> balance.value() + 1 < u256_modulus(),
        credited is Some ==> credited->0.value() == balance.value() + 1,
{
    let max = U256::max();
    proof {
        balance.lemma_value_is_injective(max);
    }
    if balance == max {
        None
    } else {
        Some(u256_add(balance, U256::from_u64(1)))
    }
}

/// The balance of an account that gives one token away; `None` where the
/// balance is zero.
pub fn debit(balance: U256) -> (debited: Option<U256>)
    ensures
        debited is Some <==> balance.value() >= 1,
        debited is Some ==> debited->0.value() == balance.value() - 1,
{
    proof {
        balance.lemma_value_is_injective(U256::zero());
    }
    if balance.is_zero() {
        None
    } else {
        Some(u256_sub(balance, U256::from_u64(1)))
    }
}

} // verus!
