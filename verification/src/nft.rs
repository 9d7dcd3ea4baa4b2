//! A collection that numbers its tokens itself and lets only the owner of a
//! token burn it.

use crate::erc721::{Erc721, Erc721Params};
use crate::error::Erc721Error;
use crate::primitives::{decimal, u256_add, u256_modulus, Address, Caller, U256};
use crate::rules;
use vstd::prelude::*;
use vstd::string::StringExecFns;

verus! {

/// The name and the symbol of the collection.
pub struct StylusNFTParams;

impl Erc721Params for StylusNFTParams {
    const NAME: &'static str = "StylusNFT";

    const SYMBOL: &'static str = "SNFT";
}

/// The identifier that follows `token_id`: one more, and zero after the
/// largest.
pub open spec fn following(token_id: U256) -> nat {
    if token_id.value() + 1 < u256_modulus() {
        token_id.value() + 1
    } else {
        0
    }
}

/// The identifier that the mint after the one of `token_id` uses.
pub fn next_token_id(token_id: U256) -> (next: U256)
    ensures
        next.value() == following(token_id),
{
    proof {
        token_id.lemma_value_is_bounded();
    }
    u256_add(token_id, U256::from_u64(1))
}

/// A ledger together with the identifier that the next mint will use.
pub struct StylusNFT {
    /// The ledger of the collection.
    pub erc721: Erc721<StylusNFTParams>,
    /// The identifier that the next mint will use.
    pub counter: U256,
}

impl StylusNFT {
    /// The ledger is one that `new` and the operations produce.
    pub open spec fn wf(&self) -> bool {
        self.erc721.wf()
    }

    /// The collection before any operation; the first mint uses identifier
    /// zero.
    pub fn new() -> (nft: Self)
        ensures
            nft.wf(),
            nft.erc721@ == crate::model::LedgerState::fresh(),
            nft.counter == U256::zero(),
    {
        StylusNFT { erc721: Erc721::new(), counter: U256::zero() }
    }

    /// Where the description of `token_id` is found: a fixed prefix, then the
    /// identifier in decimal digits.
    pub fn token_uri(token_id: U256) -> (uri: Result<String, Erc721Error>)
        ensures
            uri matches Ok(text) && text@ == "https://foobar/"@ + decimal(token_id.value()),
    {
        let digits = token_id.to_string();
        Ok("https://foobar/".to_string().concat(digits.as_str()))
    }

    /// Mints the token with the next identifier to `to`. On success the next
    /// identifier goes up by one, and from 2^256 - 1 back to zero; on failure
    /// it stays.
    pub fn mint(&mut self, to: Address) -> (done: Result<(), Erc721Error>)
        requires
            old(self).wf(),
        ensures
            final(self).wf(),
            done == old(self).erc721@.mint_verdict(to, old(self).counter),
            done is Ok ==> final(self).erc721@ == old(self).erc721@.after_mint(
                to,
                old(self).counter,
            ) && final(self).counter.value() == following(old(self).counter),
            done is Err ==> final(self).erc721@ == old(self).erc721@ && final(self).counter
                == old(self).counter,
    {
        let token_id = self.counter;
        match self.erc721._mint(to, token_id) {
            Err(error) => {
                return Err(error);
            },
            Ok(()) => {},
        }
        self.counter = next_token_id(token_id);
        Ok(())
    }

    /// Burns `token_id` on behalf of `caller`. Fails with `NotAuthorized`
    /// unless `caller` owns the token.
    pub fn burn(&mut self, caller: Caller, token_id: U256) -> (done: Result<(), Erc721Error>)
        requires
            old(self).wf(),
        ensures
            final(self).wf(),
            final(self).counter == old(self).counter,
            done == rules::owner_burn_verdict(
                caller@,
                token_id,
                old(self).erc721@.owners[token_id],
            ),
            final(self).erc721@ == if done is Ok {
                old(self).erc721@.after_burn(token_id)
            } else {
                old(self).erc721@
            },
    {
        let owner = match self.erc721.owner_of(token_id) {
            Ok(owner) => owner,
            Err(error) => {
                return Err(error);
            },
        };
        match rules::check_owner_burn(caller.account(), token_id, owner) {
            Err(error) => {
                return Err(error);
            },
            Ok(()) => {},
        }
        self.erc721._burn(token_id)
    }
}

} // verus!
