//! 256-bit unsigned amounts.
//!
//! An amount is held as two 128-bit halves, so that verified code can read and
//! compare it. The four arithmetic operations are carried out by
//! `cosmwasm_std::Uint256`; what they return is stated here and trusted.

use vstd::prelude::*;
use vstd::std_specs::convert::FromSpecImpl;
use crate::errors::{OverflowError, OverflowOperation};

verus! {

/// Two to the power 128, the weight of the high half of a [`Uint256`].
pub open spec fn pow2_128() -> int {
    0x1_0000_0000_0000_0000_0000_0000_0000_0000int
}

/// The largest number a [`Uint256`] can hold, two to the power 256 minus one.
pub open spec fn uint256_max() -> int {
    pow2_128() * pow2_128() - 1
}

/// An unsigned integer below two to the power 256.
#[derive(Clone, Copy, Debug, PartialEq, Eq, Structural)]
pub struct Uint256 {
    pub hi: u128,
    pub lo: u128,
}

/// `Uint256::checked_add` of cosmwasm_std: the sum where it is below two to
/// the power 256, and nothing where it is not.
#[verifier::external_body]
fn outside_checked_add(a: Uint256, b: Uint256) -> (r: Option<Uint256>)
    ensures
        r is Some <==> a.value() + b.value() <= uint256_max(),
        r is Some ==> r->Some_0.value() == a.value() + b.value(),
{
    let x = [a.hi.to_be_bytes(), a.lo.to_be_bytes()].concat().try_into().unwrap();
    let y = [b.hi.to_be_bytes(), b.lo.to_be_bytes()].concat().try_into().unwrap();
    let v = cosmwasm_std::Uint256::from_be_bytes(x)
        .checked_add(cosmwasm_std::Uint256::from_be_bytes(y))
        .ok()?
        .to_be_bytes();
    Some(Uint256 {
        hi: u128::from_be_bytes(v[..16].try_into().unwrap()),
        lo: u128::from_be_bytes(v[16..].try_into().unwrap()),
    })
}

/// `Uint256::checked_sub` of cosmwasm_std: the difference where the second
/// number is not the larger, and nothing where it is.
#[verifier::external_body]
fn outside_checked_sub(a: Uint256, b: Uint256) -> (r: Option<Uint256>)
    ensures
        r is Some <==> b.value() <= a.value(),
        r is Some ==> r->Some_0.value() == a.value() - b.value(),
{
    let x = [a.hi.to_be_bytes(), a.lo.to_be_bytes()].concat().try_into().unwrap();
    let y = [b.hi.to_be_bytes(), b.lo.to_be_bytes()].concat().try_into().unwrap();
    let v = cosmwasm_std::Uint256::from_be_bytes(x)
        .checked_sub(cosmwasm_std::Uint256::from_be_bytes(y))
        .ok()?
        .to_be_bytes();
    Some(Uint256 {
        hi: u128::from_be_bytes(v[..16].try_into().unwrap()),
        lo: u128::from_be_bytes(v[16..].try_into().unwrap()),
    })
}

/// `Uint256::checked_mul` of cosmwasm_std: the product where it is below two
/// to the power 256, and nothing where it is not.
#[verifier::external_body]
fn outside_checked_mul(a: Uint256, b: Uint256) -> (r: Option<Uint256>)
    ensures
        r is Some <==> a.value() * b.value() <= uint256_max(),
        r is Some ==> r->Some_0.value() == a.value() * b.value(),
{
    let x = [a.hi.to_be_bytes(), a.lo.to_be_bytes()].concat().try_into().unwrap();
    let y = [b.hi.to_be_bytes(), b.lo.to_be_bytes()].concat().try_into().unwrap();
    let v = cosmwasm_std::Uint256::from_be_bytes(x)
        .checked_mul(cosmwasm_std::Uint256::from_be_bytes(y))
        .ok()?
        .to_be_bytes();
    Some(Uint256 {
        hi: u128::from_be_bytes(v[..16].try_into().unwrap()),
        lo: u128::from_be_bytes(v[16..].try_into().unwrap()),
    })
}

/// `Uint256::checked_div` of cosmwasm_std: the quotient rounded down where
/// the divisor is not zero, and nothing where it is.
#[verifier::external_body]
fn outside_checked_div(a: Uint256, b: Uint256) -> (r: Option<Uint256>)
    ensures
        r is Some <==> b.value() != 0,
        r is Some ==> r->Some_0.value() == a.value() / b.value(),
{
    let x = [a.hi.to_be_bytes(), a.lo.to_be_bytes()].concat().try_into().unwrap();
    let y = [b.hi.to_be_bytes(), b.lo.to_be_bytes()].concat().try_into().unwrap();
    let v = cosmwasm_std::Uint256::from_be_bytes(x)
        .checked_div(cosmwasm_std::Uint256::from_be_bytes(y))
        .ok()?
        .to_be_bytes();
    Some(Uint256 {
        hi: u128::from_be_bytes(v[..16].try_into().unwrap()),
        lo: u128::from_be_bytes(v[16..].try_into().unwrap()),
    })
}

impl Uint256 {
    /// The number that the two halves stand for.
    pub open spec fn value(self) -> nat {
        (self.hi * pow2_128() + self.lo) as nat
    }

    /// The amount that stands for a number below two to the power 256.
    pub open spec fn from_nat(n: nat) -> Uint256 {
        Uint256 { hi: (n / (pow2_128() as nat)) as u128, lo: (n % (pow2_128() as nat)) as u128 }
    }

    /// The number zero.
    pub fn zero() -> (r: Uint256)
        ensures
            r.value() == 0,
            r == (Uint256 { hi: 0, lo: 0 }),
    {
        Uint256 { hi: 0, lo: 0 }
    }

    /// Whether the number is zero.
    pub fn is_zero(&self) -> (r: bool)
        ensures
            r == (self.value() == 0),
    {
        self.hi == 0 && self.lo == 0
    }

    /// Whether this number is smaller than the other.
    pub fn lt(&self, other: &Uint256) -> (r: bool)
        ensures
            r == (self.value() < other.value()),
    {
        self.hi < other.hi || (self.hi == other.hi && self.lo < other.lo)
    }

    /// Whether this number is larger than the other.
    pub fn gt(&self, other: &Uint256) -> (r: bool)
        ensures
            r == (self.value() > other.value()),
    {
        other.lt(self)
    }

    /// Whether this number is at most the other.
    pub fn le(&self, other: &Uint256) -> (r: bool)
        ensures
            r == (self.value() <= other.value()),
    {
        !other.lt(self)
    }

    /// Whether this number is at least the other.
    pub fn ge(&self, other: &Uint256) -> (r: bool)
        ensures
            r == (self.value() >= other.value()),
    {
        !self.lt(other)
    }

    /// The number as 128 bits, or `None` where it needs more.
    pub fn to_u128(&self) -> (r: Option<u128>)
        ensures
            r is Some <==> self.value() <= u128::MAX,
            r is Some ==> r->Some_0 == self.value(),
    {
        if self.hi == 0 {
            Some(self.lo)
        } else {
            None
        }
    }

    /// The sum, or the overflow where it does not fit.
    pub fn checked_add(self, other: Uint256) -> (r: Result<Uint256, OverflowError>)
        ensures
            r is Ok <==> self.value() + other.value() <= uint256_max(),
            r is Ok ==> r->Ok_0.value() == self.value() + other.value(),
            r is Err ==> r->Err_0.operation == OverflowOperation::Add,
    {
        match outside_checked_add(self, other) {
            Some(v) => Ok(v),
            None => Err(OverflowError { operation: OverflowOperation::Add }),
        }
    }

    /// The difference, or the overflow where the other number is larger.
    pub fn checked_sub(self, other: Uint256) -> (r: Result<Uint256, OverflowError>)
        ensures
            r is Ok <==> other.value() <= self.value(),
            r is Ok ==> r->Ok_0.value() == self.value() - other.value(),
            r is Err ==> r->Err_0.operation == OverflowOperation::Sub,
    {
        match outside_checked_sub(self, other) {
            Some(v) => Ok(v),
            None => Err(OverflowError { operation: OverflowOperation::Sub }),
        }
    }

    /// The product, or the overflow where it does not fit.
    pub fn checked_mul(self, other: Uint256) -> (r: Result<Uint256, OverflowError>)
        ensures
            r is Ok <==> self.value() * other.value() <= uint256_max(),
            r is Ok ==> r->Ok_0.value() == self.value() * other.value(),
            r is Err ==> r->Err_0.operation == OverflowOperation::Mul,
    {
        match outside_checked_mul(self, other) {
            Some(v) => Ok(v),
            None => Err(OverflowError { operation: OverflowOperation::Mul }),
        }
    }

    /// The quotient rounded down, or `None` where the divisor is zero.
    pub fn checked_div(self, other: Uint256) -> (r: Option<Uint256>)
        ensures
            r is Some <==> other.value() != 0,
            r is Some ==> r->Some_0.value() == self.value() / other.value(),
    {
        outside_checked_div(self, other)
    }
}

impl From<u128> for Uint256 {
    fn from(v: u128) -> (r: Uint256) {
        Uint256 { hi: 0, lo: v }
    }
}

impl FromSpecImpl<u128> for Uint256 {
    open spec fn obeys_from_spec() -> bool {
        true
    }

    open spec fn from_spec(v: u128) -> Uint256 {
        Uint256 { hi: 0, lo: v }
    }
}

impl From<u64> for Uint256 {
    fn from(v: u64) -> (r: Uint256) {
        Uint256 { hi: 0, lo: v as u128 }
    }
}

impl FromSpecImpl<u64> for Uint256 {
    open spec fn obeys_from_spec() -> bool {
        true
    }

    open spec fn from_spec(v: u64) -> Uint256 {
        Uint256 { hi: 0, lo: v as u128 }
    }
}

/// Two amounts are the same number exactly when their halves agree.
pub proof fn law_value_injective(a: Uint256, b: Uint256)
    ensures
        a.value() == b.value() <==> a == b,
{
}

/// An amount made from a number that fits stands for that number, and each
/// amount is the one made from its number.
pub proof fn lemma_from_nat(n: nat)
    requires
        n <= uint256_max(),
    ensures
        Uint256::from_nat(n).value() == n,
        forall|a: Uint256| a.value() == n ==> a == Uint256::from_nat(n),
{
}

} // verus!
