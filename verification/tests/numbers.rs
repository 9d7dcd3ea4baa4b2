use erc721_ledger::primitives::{Address, Caller, U256};
use erc721_ledger::rules::{credit, debit};

#[test]
fn zero_address_is_the_zero_sentinel() {
    assert_eq!(Address::zero(), Address::new(0, 0));
    assert!(Address::zero().is_zero());
    assert!(!Address::new(0, 1).is_zero());
    assert!(!Address::new(1, 0).is_zero());
}

#[test]
fn caller_is_never_the_zero_sentinel() {
    assert!(Caller::new(Address::zero()).is_none());
    let account = Address::new(0xdead_beef, 42);
    assert_eq!(Caller::new(account).unwrap().account(), account);
}

#[test]
fn u256_limbs_are_least_significant_first() {
    let x = U256::from_limbs([1, 2, 3, 4]);
    assert_eq!(x, U256 { w0: 1, w1: 2, w2: 3, w3: 4 });
    assert_eq!(x.into_limbs(), [1, 2, 3, 4]);
    assert_eq!(U256::from_u64(9), U256 { w0: 9, w1: 0, w2: 0, w3: 0 });
    assert_eq!(U256::zero(), U256::from_u64(0));
    assert!(U256::zero().is_zero());
    assert!(!U256::from_limbs([0, 0, 0, 1]).is_zero());
    assert_eq!(U256::max().into_limbs(), [u64::MAX; 4]);
}

#[test]
fn credit_adds_one() {
    assert_eq!(credit(U256::zero()), Some(U256::from_u64(1)));
    assert_eq!(credit(U256::from_u64(41)), Some(U256::from_u64(42)));
}

#[test]
fn credit_carries_into_the_next_limb() {
    assert_eq!(
        credit(U256::from_limbs([u64::MAX, 0, 0, 0])),
        Some(U256::from_limbs([0, 1, 0, 0]))
    );
    assert_eq!(
        credit(U256::from_limbs([u64::MAX, u64::MAX, u64::MAX, 6])),
        Some(U256::from_limbs([0, 0, 0, 7]))
    );
}

#[test]
fn credit_refuses_to_wrap() {
    assert_eq!(credit(U256::max()), None);
    assert_eq!(
        credit(U256::from_limbs([u64::MAX - 1, u64::MAX, u64::MAX, u64::MAX])),
        Some(U256::max())
    );
}

#[test]
fn debit_takes_one() {
    assert_eq!(debit(U256::from_u64(1)), Some(U256::zero()));
    assert_eq!(debit(U256::from_u64(42)), Some(U256::from_u64(41)));
}

#[test]
fn debit_borrows_from_the_next_limb() {
    assert_eq!(
        debit(U256::from_limbs([0, 1, 0, 0])),
        Some(U256::from_limbs([u64::MAX, 0, 0, 0]))
    );
    assert_eq!(
        debit(U256::from_limbs([0, 0, 0, 1])),
        Some(U256::from_limbs([u64::MAX, u64::MAX, u64::MAX, 0]))
    );
}

#[test]
fn debit_refuses_to_go_below_zero() {
    assert_eq!(debit(U256::zero()), None);
}

#[test]
fn u256_prints_its_decimal_digits() {
    assert_eq!(U256::zero().to_string(), "0");
    assert_eq!(U256::from_u64(7).to_string(), "7");
    assert_eq!(U256::from_u64(10).to_string(), "10");
    assert_eq!(U256::from_u64(u64::MAX).to_string(), "18446744073709551615");
    assert_eq!(U256::from_limbs([0, 1, 0, 0]).to_string(), "18446744073709551616");
    assert_eq!(
        U256::max().to_string(),
        "115792089237316195423570985008687907853269984665640564039457584007913129639935"
    );
}
