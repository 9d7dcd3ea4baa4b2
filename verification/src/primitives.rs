//! Account identifiers, 256-bit unsigned integers and authenticated callers.

use vstd::prelude::*;

verus! {

/// A 160-bit account identifier, held as its high 32 bits and its low 128 bits.
#[derive(Clone, Copy, Debug, PartialEq, Eq, Structural)]
pub struct Address {
    pub hi: u32,
    pub lo: u128,
}

impl Address {
    /// The zero sentinel.
    pub open spec fn spec_zero() -> Address {
        Address { hi: 0, lo: 0 }
    }

    /// The reserved account value that stands for "no account" and "not minted".
    #[verifier::when_used_as_spec(spec_zero)]
    pub fn zero() -> (a: Address)
        ensures
            a == Address::zero(),
    {
        Address { hi: 0, lo: 0 }
    }

    /// The identifier whose value is `hi * 2^128 + lo`.
    pub fn new(hi: u32, lo: u128) -> (a: Address)
        ensures
            a == (Address { hi, lo }),
    {
        Address { hi, lo }
    }

    /// Whether this is the zero sentinel.
    pub open spec fn is_zero_spec(self) -> bool {
        self == Address::zero()
    }

    /// Whether this is the zero sentinel.
    #[verifier::when_used_as_spec(is_zero_spec)]
    pub fn is_zero(self) -> (z: bool)
        ensures
            z == (self == Address::zero()),
    {
        self.hi == 0 && self.lo == 0
    }
}

/// An unsigned 256-bit integer as four 64-bit limbs, least significant first.
#[derive(Clone, Copy, Debug, PartialEq, Eq, Structural)]
pub struct U256 {
    pub w0: u64,
    pub w1: u64,
    pub w2: u64,
    pub w3: u64,
}

/// 2^256, one more than the largest value a `U256` holds.
pub open spec fn u256_modulus() -> nat {
    0x1_0000_0000_0000_0000_0000_0000_0000_0000_0000_0000_0000_0000_0000_0000_0000_0000nat
}

impl U256 {
    /// The number that the four limbs stand for.
    pub open spec fn value(self) -> nat {
        (self.w0 + self.w1 * 0x1_0000_0000_0000_0000int
            + self.w2 * 0x1_0000_0000_0000_0000_0000_0000_0000_0000int
            + self.w3 * 0x1_0000_0000_0000_0000_0000_0000_0000_0000_0000_0000_0000_0000int) as nat
    }

    /// The integer zero.
    pub open spec fn spec_zero() -> U256 {
        U256 { w0: 0, w1: 0, w2: 0, w3: 0 }
    }

    /// The integer zero.
    #[verifier::when_used_as_spec(spec_zero)]
    pub fn zero() -> (r: U256)
        ensures
            r == U256::zero(),
            r.value() == 0,
    {
        U256 { w0: 0, w1: 0, w2: 0, w3: 0 }
    }

    /// The integer with the given limbs, least significant first.
    pub fn from_limbs(limbs: [u64; 4]) -> (x: U256)
        ensures
            x == (U256 { w0: limbs[0], w1: limbs[1], w2: limbs[2], w3: limbs[3] }),
    {
        U256 { w0: limbs[0], w1: limbs[1], w2: limbs[2], w3: limbs[3] }
    }

    /// The four limbs, least significant first.
    pub fn into_limbs(self) -> (limbs: [u64; 4])
        ensures
            limbs[0] == self.w0,
            limbs[1] == self.w1,
            limbs[2] == self.w2,
            limbs[3] == self.w3,
    {
        [self.w0, self.w1, self.w2, self.w3]
    }

    /// The integer equal to `x`.
    pub fn from_u64(x: u64) -> (r: U256)
        ensures
            r == (U256 { w0: x, w1: 0, w2: 0, w3: 0 }),
            r.value() == x,
    {
        U256 { w0: x, w1: 0, w2: 0, w3: 0 }
    }

    /// The largest value, 2^256 - 1.
    pub fn max() -> (r: U256)
        ensures
            r.value() == u256_modulus() - 1,
    {
        U256 {
            w0: 0xffff_ffff_ffff_ffff,
            w1: 0xffff_ffff_ffff_ffff,
            w2: 0xffff_ffff_ffff_ffff,
            w3: 0xffff_ffff_ffff_ffff,
        }
    }

    /// Whether the value is zero.
    pub fn is_zero(self) -> (z: bool)
        ensures
            z == (self.value() == 0),
    {
        self.w0 == 0 && self.w1 == 0 && self.w2 == 0 && self.w3 == 0
    }

    /// The value in decimal digits.
    pub fn to_string(&self) -> (digits: String)
        ensures
            digits@ == decimal(self.value()),
    {
        u256_to_decimal(*self)
    }

    /// Every `U256` is below 2^256.
    pub proof fn lemma_value_is_bounded(self)
        ensures
            self.value() < u256_modulus(),
    {
    }

    /// Two `U256` with one value are equal.
    pub proof fn lemma_value_is_injective(self, other: U256)
        ensures
            self.value() == other.value() <==> self == other,
    {
        let a2 = self.w2 + self.w3 * 0x1_0000_0000_0000_0000int;
        let b2 = other.w2 + other.w3 * 0x1_0000_0000_0000_0000int;
        let a1 = self.w1 + a2 * 0x1_0000_0000_0000_0000int;
        let b1 = other.w1 + b2 * 0x1_0000_0000_0000_0000int;
        assert(self.value() == self.w0 + a1 * 0x1_0000_0000_0000_0000int);
        assert(other.value() == other.w0 + b1 * 0x1_0000_0000_0000_0000int);
        if self.value() == other.value() {
            lemma_split_limb(self.w0 as int, a1, other.w0 as int, b1);
            lemma_split_limb(self.w1 as int, a2, other.w1 as int, b2);
            lemma_split_limb(self.w2 as int, self.w3 as int, other.w2 as int, other.w3 as int);
        }
    }
}

/// A number splits in one way only into a limb and the limbs above it.
proof fn lemma_split_limb(low_a: int, high_a: int, low_b: int, high_b: int)
    requires
        0 <= low_a < 0x1_0000_0000_0000_0000,
        0 <= low_b < 0x1_0000_0000_0000_0000,
        low_a + high_a * 0x1_0000_0000_0000_0000 == low_b + high_b * 0x1_0000_0000_0000_0000,
    ensures
        low_a == low_b,
        high_a == high_b,
{
}

/// The character of the decimal digit `digit`, which is below ten.
pub open spec fn decimal_digit(digit: nat) -> char {
    seq!['0', '1', '2', '3', '4', '5', '6', '7', '8', '9'][digit as int]
}

/// The decimal digits of `n`, most significant first and without leading
/// zeros; the single digit `0` for zero.
pub open spec fn decimal(n: nat) -> Seq<char>
    decreases n,
{
    if n < 10 {
        seq![decimal_digit(n)]
    } else {
        decimal(n / 10).push(decimal_digit(n % 10))
    }
}

/// The text that `alloy_primitives::U256` (ruint's `Display`) prints for a
/// number: its decimal digits, with no sign, padding or leading zeros.
#[verifier::external_body]
pub(crate) fn u256_to_decimal(x: U256) -> (digits: String)
    ensures
        digits@ == decimal(x.value()),
{
    format!("{}", alloy_primitives::U256::from_limbs([x.w0, x.w1, x.w2, x.w3]))
}

/// The sum `a + b` of `alloy_primitives::U256` (ruint's `Add::add`), which
/// wraps around at 2^256: the result's value is `(a + b) mod 2^256`.
#[verifier::external_body]
pub(crate) fn u256_add(a: U256, b: U256) -> (r: U256)
    ensures
        r.value() == (a.value() + b.value()) % u256_modulus(),
{
    let x = alloy_primitives::U256::from_limbs([a.w0, a.w1, a.w2, a.w3]);
    let y = alloy_primitives::U256::from_limbs([b.w0, b.w1, b.w2, b.w3]);
    let limbs = (x + y).into_limbs();
    U256 { w0: limbs[0], w1: limbs[1], w2: limbs[2], w3: limbs[3] }
}

/// The difference `a - b` of `alloy_primitives::U256` (ruint's `Sub::sub`),
/// which wraps around at zero: the result's value is `(a - b) mod 2^256`.
#[verifier::external_body]
pub(crate) fn u256_sub(a: U256, b: U256) -> (r: U256)
    ensures
        r.value() == (a.value() - b.value()) % (u256_modulus() as int),
{
    let x = alloy_primitives::U256::from_limbs([a.w0, a.w1, a.w2, a.w3]);
    let y = alloy_primitives::U256::from_limbs([b.w0, b.w1, b.w2, b.w3]);
    let limbs = (x - y).into_limbs();
    U256 { w0: limbs[0], w1: limbs[1], w2: limbs[2], w3: limbs[3] }
}

/// An authenticated caller: the identifier of a participant, which is never
/// the zero sentinel.
#[derive(Clone, Copy, Debug)]
pub struct Caller {
    account: Address,
}

impl Caller {
    #[verifier::type_invariant]
    spec fn is_account(self) -> bool {
        self.account != Address::zero()
    }

    /// The caller's account identifier.
    pub closed spec fn view(self) -> Address {
        self.account
    }

    /// The caller with the given identifier; `None` for the zero sentinel.
    pub fn new(account: Address) -> (c: Option<Caller>)
        ensures
            c is Some <==> account != Address::zero(),
            c is Some ==> c->0@ == account,
    {
        if account.is_zero() {
            None
        } else {
            Some(Caller { account })
        }
    }

    /// The caller's account identifier.
    pub fn account(&self) -> (a: Address)
        ensures
            a == self@,
            a != Address::zero(),
    {
        proof {
            use_type_invariant(self);
        }
        self.account
    }
}

} // verus!
