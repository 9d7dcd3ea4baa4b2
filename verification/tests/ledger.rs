use erc721_ledger::erc721::{Erc721, Erc721Params};
use erc721_ledger::error::{
    AlreadyMinted, CallFailed, Erc721Error, InvalidRecipient, NotAuthorized, NotMinted, NotOwner,
    UnsafeRecipient,
};
use erc721_ledger::event::Event;
use erc721_ledger::primitives::{Address, Caller, U256};
use erc721_ledger::receiver::{HookOutcome, Receiver};

struct Art;

impl Erc721Params for Art {
    const NAME: &'static str = "Art";
    const SYMBOL: &'static str = "ART";
}

fn alice() -> Address {
    Address::new(0, 1)
}

fn bob() -> Address {
    Address::new(0, 2)
}

fn carol() -> Address {
    Address::new(0, 3)
}

fn caller(account: Address) -> Caller {
    Caller::new(account).unwrap()
}

fn id(n: u64) -> U256 {
    U256::from_u64(n)
}

fn acknowledged() -> Receiver {
    Receiver::Program(HookOutcome::Returned([0x15, 0x0b, 0x7a, 0x02]))
}

fn refused() -> Receiver {
    Receiver::Program(HookOutcome::Returned([0xde, 0xad, 0xbe, 0xef]))
}

fn ledger_with(tokens: &[(Address, u64)]) -> Erc721<Art> {
    let mut ledger = Erc721::<Art>::new();
    for (owner, token) in tokens {
        assert_eq!(ledger._mint(*owner, id(*token)), Ok(()));
    }
    ledger
}

fn balance(ledger: &Erc721<Art>, account: Address) -> U256 {
    ledger.balance_of(account).unwrap()
}

#[test]
fn collection_has_its_name_and_symbol() {
    assert_eq!(Erc721::<Art>::name(), Ok(String::from("Art")));
    assert_eq!(Erc721::<Art>::symbol(), Ok(String::from("ART")));
}

#[test]
fn fresh_ledger_is_empty() {
    let ledger = Erc721::<Art>::new();
    assert_eq!(ledger.owner_of(id(0)), Ok(Address::zero()));
    assert_eq!(ledger.balance_of(alice()), Ok(U256::zero()));
    assert_eq!(ledger.get_approved(id(0)), Ok(Address::zero()));
    assert_eq!(ledger.is_approved_for_all(alice(), bob()), Ok(false));
    assert!(ledger.events().is_empty());
}

#[test]
fn mint_to_the_zero_sentinel_is_refused() {
    let mut ledger = Erc721::<Art>::new();
    assert_eq!(
        ledger._mint(Address::zero(), id(1)),
        Err(Erc721Error::InvalidRecipient(InvalidRecipient { to: Address::zero() }))
    );
    assert_eq!(ledger.owner_of(id(1)), Ok(Address::zero()));
    assert!(ledger.events().is_empty());
}

#[test]
fn mint_counts_every_token_of_an_account() {
    let ledger = ledger_with(&[(alice(), 1), (alice(), 2), (bob(), 3), (alice(), 4)]);
    assert_eq!(balance(&ledger, alice()), id(3));
    assert_eq!(balance(&ledger, bob()), id(1));
    assert_eq!(balance(&ledger, carol()), id(0));
    assert_eq!(ledger.events().len(), 4);
}

#[test]
fn transfer_by_the_owner_moves_token_and_balances() {
    let mut ledger = ledger_with(&[(alice(), 1), (alice(), 2)]);
    assert_eq!(ledger.transfer_from(caller(alice()), alice(), bob(), id(1)), Ok(()));
    assert_eq!(ledger.owner_of(id(1)), Ok(bob()));
    assert_eq!(ledger.owner_of(id(2)), Ok(alice()));
    assert_eq!(balance(&ledger, alice()), id(1));
    assert_eq!(balance(&ledger, bob()), id(1));
    assert_eq!(
        ledger.events().last(),
        Some(&Event::Transfer { from: alice(), to: bob(), token_id: id(1) })
    );
}

#[test]
fn transfer_from_a_wrong_owner_is_refused() {
    let mut ledger = ledger_with(&[(alice(), 1)]);
    assert_eq!(
        ledger.transfer_from(caller(bob()), bob(), carol(), id(1)),
        Err(Erc721Error::NotOwner(NotOwner { account: bob(), token_id: id(1) }))
    );
    assert_eq!(
        ledger.transfer_from(caller(alice()), alice(), carol(), id(9)),
        Err(Erc721Error::NotOwner(NotOwner { account: alice(), token_id: id(9) }))
    );
    assert_eq!(ledger.owner_of(id(1)), Ok(alice()));
    assert_eq!(ledger.events().len(), 1);
}

#[test]
fn transfer_of_an_unminted_token_from_nobody_is_not_authorized() {
    let mut ledger = Erc721::<Art>::new();
    assert_eq!(
        ledger.transfer_from(caller(alice()), Address::zero(), bob(), id(1)),
        Err(Erc721Error::NotAuthorized(NotAuthorized { caller: alice() }))
    );
    assert_eq!(ledger.owner_of(id(1)), Ok(Address::zero()));
    assert_eq!(balance(&ledger, bob()), id(0));
}

#[test]
fn transfer_to_the_zero_sentinel_is_refused() {
    let mut ledger = ledger_with(&[(alice(), 1)]);
    assert_eq!(
        ledger.transfer_from(caller(alice()), alice(), Address::zero(), id(1)),
        Err(Erc721Error::InvalidRecipient(InvalidRecipient { to: Address::zero() }))
    );
    assert_eq!(ledger.owner_of(id(1)), Ok(alice()));
    assert_eq!(balance(&ledger, alice()), id(1));
}

#[test]
fn transfer_to_oneself_keeps_the_balance_and_clears_the_approval() {
    let mut ledger = ledger_with(&[(alice(), 1)]);
    assert_eq!(ledger.approve(caller(alice()), bob(), id(1)), Ok(()));
    assert_eq!(ledger.transfer_from(caller(alice()), alice(), alice(), id(1)), Ok(()));
    assert_eq!(ledger.owner_of(id(1)), Ok(alice()));
    assert_eq!(balance(&ledger, alice()), id(1));
    assert_eq!(ledger.get_approved(id(1)), Ok(Address::zero()));
    assert_eq!(
        ledger.events().last(),
        Some(&Event::Transfer { from: alice(), to: alice(), token_id: id(1) })
    );
}

#[test]
fn operator_moves_every_token_of_the_owner() {
    let mut ledger = ledger_with(&[(alice(), 1), (alice(), 2)]);
    assert_eq!(ledger.set_approval_for_all(caller(alice()), bob(), true), Ok(()));
    assert_eq!(ledger.is_approved_for_all(alice(), bob()), Ok(true));
    assert_eq!(ledger.is_approved_for_all(bob(), alice()), Ok(false));
    assert_eq!(
        ledger.events().last(),
        Some(&Event::ApprovalForAll { owner: alice(), operator: bob(), approved: true })
    );
    assert_eq!(ledger.transfer_from(caller(bob()), alice(), carol(), id(1)), Ok(()));
    assert_eq!(ledger.transfer_from(caller(bob()), alice(), carol(), id(2)), Ok(()));
    assert_eq!(balance(&ledger, carol()), id(2));
    assert_eq!(ledger.is_approved_for_all(alice(), bob()), Ok(true));
}

#[test]
fn withdrawn_operator_is_not_authorized() {
    let mut ledger = ledger_with(&[(alice(), 1)]);
    assert_eq!(ledger.set_approval_for_all(caller(alice()), bob(), true), Ok(()));
    assert_eq!(ledger.set_approval_for_all(caller(alice()), bob(), false), Ok(()));
    assert_eq!(
        ledger.transfer_from(caller(bob()), alice(), carol(), id(1)),
        Err(Erc721Error::NotAuthorized(NotAuthorized { caller: bob() }))
    );
    assert_eq!(
        ledger.events().last(),
        Some(&Event::ApprovalForAll { owner: alice(), operator: bob(), approved: false })
    );
}

#[test]
fn approve_is_for_the_owner_and_its_operators() {
    let mut ledger = ledger_with(&[(alice(), 1)]);
    assert_eq!(
        ledger.approve(caller(bob()), carol(), id(1)),
        Err(Erc721Error::NotOwner(NotOwner { account: alice(), token_id: id(1) }))
    );
    assert_eq!(ledger.get_approved(id(1)), Ok(Address::zero()));
    assert_eq!(ledger.set_approval_for_all(caller(alice()), bob(), true), Ok(()));
    assert_eq!(ledger.approve(caller(bob()), carol(), id(1)), Ok(()));
    assert_eq!(ledger.get_approved(id(1)), Ok(carol()));
    assert_eq!(
        ledger.events().last(),
        Some(&Event::Approval { owner: alice(), spender: carol(), token_id: id(1) })
    );
}

#[test]
fn approve_of_an_unminted_token_is_refused() {
    let mut ledger = Erc721::<Art>::new();
    assert_eq!(
        ledger.approve(caller(alice()), bob(), id(1)),
        Err(Erc721Error::NotOwner(NotOwner { account: Address::zero(), token_id: id(1) }))
    );
    assert_eq!(ledger.get_approved(id(1)), Ok(Address::zero()));
    assert!(ledger.events().is_empty());
}

#[test]
fn authorization_read_twice_gives_one_answer() {
    let mut ledger = ledger_with(&[(alice(), 1)]);
    assert_eq!(ledger.approve(caller(alice()), bob(), id(1)), Ok(()));
    for (who, expected) in [(alice(), true), (bob(), true), (carol(), false)] {
        let first = ledger.is_authorized(who, alice(), id(1));
        let second = ledger.is_authorized(who, alice(), id(1));
        assert_eq!(first, expected);
        assert_eq!(second, expected);
    }
    assert_eq!(ledger.events().len(), 2);
}

#[test]
fn burn_ends_the_token_and_forgets_its_spender() {
    let mut ledger = ledger_with(&[(alice(), 1), (alice(), 2)]);
    assert_eq!(ledger.approve(caller(alice()), bob(), id(1)), Ok(()));
    assert_eq!(ledger._burn(id(1)), Ok(()));
    assert_eq!(ledger.owner_of(id(1)), Ok(Address::zero()));
    assert_eq!(ledger.get_approved(id(1)), Ok(Address::zero()));
    assert_eq!(balance(&ledger, alice()), id(1));
    assert_eq!(
        ledger.events().last(),
        Some(&Event::Transfer { from: alice(), to: Address::zero(), token_id: id(1) })
    );
    assert_eq!(ledger._burn(id(1)), Err(Erc721Error::NotMinted(NotMinted { token_id: id(1) })));
}

#[test]
fn burned_token_can_be_minted_again() {
    let mut ledger = ledger_with(&[(alice(), 1)]);
    assert_eq!(ledger._burn(id(1)), Ok(()));
    assert_eq!(ledger._mint(bob(), id(1)), Ok(()));
    assert_eq!(ledger.owner_of(id(1)), Ok(bob()));
    assert_eq!(balance(&ledger, alice()), id(0));
    assert_eq!(balance(&ledger, bob()), id(1));
    assert_eq!(
        ledger._mint(alice(), id(1)),
        Err(Erc721Error::AlreadyMinted(AlreadyMinted { token_id: id(1) }))
    );
}

#[test]
fn safe_transfer_to_a_plain_account_stands() {
    let mut ledger = ledger_with(&[(alice(), 1)]);
    assert_eq!(
        ledger.safe_transfer_from(caller(alice()), alice(), bob(), id(1), Receiver::Account),
        Ok(())
    );
    assert_eq!(ledger.owner_of(id(1)), Ok(bob()));
    assert_eq!(ledger.events().len(), 2);
}

#[test]
fn safe_transfer_to_an_acknowledging_program_stands() {
    let mut ledger = ledger_with(&[(alice(), 1)]);
    assert_eq!(ledger.approve(caller(alice()), carol(), id(1)), Ok(()));
    assert_eq!(
        ledger.safe_transfer_from(caller(alice()), alice(), bob(), id(1), acknowledged()),
        Ok(())
    );
    assert_eq!(ledger.owner_of(id(1)), Ok(bob()));
    assert_eq!(ledger.get_approved(id(1)), Ok(Address::zero()));
    assert_eq!(balance(&ledger, alice()), id(0));
    assert_eq!(balance(&ledger, bob()), id(1));
}

#[test]
fn safe_transfer_reports_the_failed_check_before_the_recipient() {
    let mut ledger = ledger_with(&[(alice(), 1)]);
    assert_eq!(
        ledger.safe_transfer_from(caller(bob()), alice(), carol(), id(1), refused()),
        Err(Erc721Error::NotAuthorized(NotAuthorized { caller: bob() }))
    );
    assert_eq!(ledger.owner_of(id(1)), Ok(alice()));
}

#[test]
fn refused_safe_transfer_keeps_the_approval_and_the_log() {
    let mut ledger = ledger_with(&[(alice(), 1)]);
    assert_eq!(ledger.approve(caller(alice()), bob(), id(1)), Ok(()));
    assert_eq!(
        ledger.safe_transfer_from(caller(bob()), alice(), carol(), id(1), refused()),
        Err(Erc721Error::UnsafeRecipient(UnsafeRecipient { recipient: carol() }))
    );
    assert_eq!(ledger.owner_of(id(1)), Ok(alice()));
    assert_eq!(ledger.get_approved(id(1)), Ok(bob()));
    assert_eq!(balance(&ledger, alice()), id(1));
    assert_eq!(balance(&ledger, carol()), id(0));
    assert_eq!(ledger.events().len(), 2);
}

#[test]
fn safe_mint_stands_or_leaves_no_trace() {
    let mut ledger = Erc721::<Art>::new();
    assert_eq!(
        ledger._safe_mint(alice(), id(1), refused()),
        Err(Erc721Error::UnsafeRecipient(UnsafeRecipient { recipient: alice() }))
    );
    assert_eq!(
        ledger._safe_mint(alice(), id(1), Receiver::Program(HookOutcome::Failed)),
        Err(Erc721Error::CallFailed(CallFailed {}))
    );
    assert_eq!(ledger.owner_of(id(1)), Ok(Address::zero()));
    assert_eq!(balance(&ledger, alice()), id(0));
    assert!(ledger.events().is_empty());
    assert_eq!(ledger._safe_mint(alice(), id(1), acknowledged()), Ok(()));
    assert_eq!(ledger._safe_mint(bob(), id(2), Receiver::Account), Ok(()));
    assert_eq!(ledger.owner_of(id(1)), Ok(alice()));
    assert_eq!(ledger.owner_of(id(2)), Ok(bob()));
    assert_eq!(
        ledger._safe_mint(bob(), id(1), refused()),
        Err(Erc721Error::AlreadyMinted(AlreadyMinted { token_id: id(1) }))
    );
    assert_eq!(
        ledger._safe_mint(Address::zero(), id(3), acknowledged()),
        Err(Erc721Error::InvalidRecipient(InvalidRecipient { to: Address::zero() }))
    );
}

fn minted_by_the_log(log: &[Event], token: U256) -> bool {
    let mut minted = false;
    for event in log {
        if let Event::Transfer { from, to, token_id } = event {
            if *token_id == token {
                if to.is_zero() {
                    minted = false;
                } else if from.is_zero() {
                    minted = true;
                }
            }
        }
    }
    minted
}

fn busy_ledger() -> Erc721<Art> {
    let mut ledger = ledger_with(&[(alice(), 1), (alice(), 2), (bob(), 3), (carol(), 4)]);
    assert_eq!(ledger.transfer_from(caller(alice()), alice(), bob(), id(1)), Ok(()));
    assert_eq!(ledger._burn(id(3)), Ok(()));
    assert_eq!(ledger.set_approval_for_all(caller(carol()), alice(), true), Ok(()));
    assert_eq!(ledger.transfer_from(caller(alice()), carol(), alice(), id(4)), Ok(()));
    assert!(ledger.transfer_from(caller(carol()), alice(), carol(), id(2)).is_err());
    assert_eq!(ledger._mint(carol(), id(5)), Ok(()));
    assert_eq!(ledger._burn(id(5)), Ok(()));
    assert_eq!(ledger._mint(carol(), id(3)), Ok(()));
    assert!(ledger._mint(bob(), id(3)).is_err());
    assert!(ledger._burn(id(6)).is_err());
    ledger
}

#[test]
fn balances_add_up_to_the_number_of_owned_tokens() {
    let ledger = busy_ledger();
    let mut owned = 0u64;
    for token in 0..8 {
        if ledger.owner_of(id(token)).unwrap() != Address::zero() {
            owned += 1;
        }
    }
    assert_eq!(owned, 4);
    let mut total = 0u64;
    for account in [Address::zero(), alice(), bob(), carol()] {
        total += balance(&ledger, account).w0;
    }
    assert_eq!(total, owned);
    assert_eq!(balance(&ledger, alice()), id(2));
    assert_eq!(balance(&ledger, bob()), id(1));
    assert_eq!(balance(&ledger, carol()), id(1));
    assert_eq!(balance(&ledger, Address::zero()), id(0));
}

#[test]
fn token_has_an_owner_exactly_if_minted_since_its_last_burn() {
    let ledger = busy_ledger();
    for token in 0..8 {
        let has_owner = ledger.owner_of(id(token)).unwrap() != Address::zero();
        assert_eq!(has_owner, minted_by_the_log(ledger.events(), id(token)));
    }
    assert_eq!(ledger.owner_of(id(3)), Ok(carol()));
    assert_eq!(ledger.owner_of(id(5)), Ok(Address::zero()));
    assert_eq!(ledger.owner_of(id(6)), Ok(Address::zero()));
}

#[test]
fn moved_or_burned_token_has_no_spender() {
    let mut ledger = ledger_with(&[(alice(), 1), (alice(), 2), (alice(), 3)]);
    for token in 1..4 {
        assert_eq!(ledger.approve(caller(alice()), carol(), id(token)), Ok(()));
    }
    assert_eq!(ledger.transfer_from(caller(carol()), alice(), bob(), id(1)), Ok(()));
    assert_eq!(
        ledger.safe_transfer_from(caller(alice()), alice(), bob(), id(2), acknowledged()),
        Ok(())
    );
    assert_eq!(ledger._burn(id(3)), Ok(()));
    for token in 1..4 {
        assert_eq!(ledger.get_approved(id(token)), Ok(Address::zero()));
    }
    assert_eq!(
        ledger.transfer_from(caller(carol()), bob(), carol(), id(1)),
        Err(Erc721Error::NotAuthorized(NotAuthorized { caller: carol() }))
    );
}

#[test]
fn checks_say_what_would_fail_and_change_nothing() {
    let ledger = ledger_with(&[(alice(), 1)]);
    assert_eq!(ledger.check_transfer(caller(alice()), alice(), bob(), id(1)), Ok(()));
    assert_eq!(
        ledger.check_transfer(caller(bob()), alice(), bob(), id(1)),
        Err(Erc721Error::NotAuthorized(NotAuthorized { caller: bob() }))
    );
    assert_eq!(
        ledger.check_transfer(caller(bob()), bob(), carol(), id(1)),
        Err(Erc721Error::NotOwner(NotOwner { account: bob(), token_id: id(1) }))
    );
    assert_eq!(ledger.check_mint(bob(), id(2)), Ok(()));
    assert_eq!(
        ledger.check_mint(bob(), id(1)),
        Err(Erc721Error::AlreadyMinted(AlreadyMinted { token_id: id(1) }))
    );
    assert_eq!(
        ledger.check_mint(Address::zero(), id(1)),
        Err(Erc721Error::InvalidRecipient(InvalidRecipient { to: Address::zero() }))
    );
    assert_eq!(ledger.owner_of(id(1)), Ok(alice()));
    assert_eq!(ledger.owner_of(id(2)), Ok(Address::zero()));
    assert_eq!(ledger.events().len(), 1);
}
