//! Fixed-point decimal numbers with 18 fractional digits in the 128-bit range.
//!
//! A [`Decimal`] is a count of atomic units, each 10^-18. Products and
//! quotients are formed in a wider range and truncated toward zero, so an
//! operation fails only where its result does not fit.

use vstd::prelude::*;
use crate::error::StdError;

verus! {

/// The number of atomic units in 1.0.
pub const DECIMAL_FRACTIONAL: u128 = 1_000_000_000_000_000_000u128;

/// The number of atomic units in 1.0, as a mathematical integer.
pub open spec fn fractional() -> int {
    1_000_000_000_000_000_000int
}

/// The atomic units of `numerator / denominator`, truncated.
pub open spec fn ratio_atomics(numerator: int, denominator: int) -> int {
    numerator * fractional() / denominator
}

/// The atomic units of the product of two decimals given by their atomic units, truncated.
pub open spec fn product_atomics(a: int, b: int) -> int {
    a * b / fractional()
}

/// The least whole number that is not below the decimal of the given atomic units.
pub open spec fn ceil_units(atomics: int) -> int {
    if atomics == 0 {
        0
    } else {
        (atomics - 1) / fractional() + 1
    }
}

/// Whether a mathematical integer fits the 128-bit range.
pub open spec fn fits(value: int) -> bool {
    0 <= value <= u128::MAX
}

/// What a quotient of whole numbers is as a decimal, and when it fails.
pub open spec fn spec_from_ratio(numerator: int, denominator: int) -> Result<int, StdError> {
    if denominator == 0 {
        Err(StdError::DivideByZero)
    } else if !fits(ratio_atomics(numerator, denominator)) {
        Err(StdError::Overflow)
    } else {
        Ok(ratio_atomics(numerator, denominator))
    }
}

/// What a product of decimals is, and when it fails.
pub open spec fn spec_mul(a: int, b: int) -> Result<int, StdError> {
    if !fits(product_atomics(a, b)) {
        Err(StdError::Overflow)
    } else {
        Ok(product_atomics(a, b))
    }
}

/// `cosmwasm_std::Decimal::checked_from_ratio`: the quotient scaled by 10^18
/// and truncated, formed in 256 bits; a zero denominator and a result beyond
/// 128 bits are the two errors.
#[verifier::external_body]
fn ratio_checked(numerator: u128, denominator: u128) -> (r: Result<u128, StdError>)
    ensures
        match spec_from_ratio(numerator as int, denominator as int) {
            Ok(a) => r == Ok::<u128, StdError>(a as u128),
            Err(e) => r == Err::<u128, StdError>(e),
        },
{
    match cosmwasm_std::Decimal::checked_from_ratio(numerator, denominator) {
        Ok(d) => Ok(d.atomics().u128()),
        Err(cosmwasm_std::CheckedFromRatioError::DivideByZero) => Err(StdError::DivideByZero),
        Err(cosmwasm_std::CheckedFromRatioError::Overflow) => Err(StdError::Overflow),
    }
}

/// `cosmwasm_std::Decimal::checked_mul`: the product of the atomic units
/// divided by 10^18 and truncated, formed in 256 bits; a result beyond 128
/// bits is the error.
#[verifier::external_body]
fn mul_checked(a: u128, b: u128) -> (r: Result<u128, StdError>)
    ensures
        match spec_mul(a as int, b as int) {
            Ok(p) => r == Ok::<u128, StdError>(p as u128),
            Err(e) => r == Err::<u128, StdError>(e),
        },
{
    match cosmwasm_std::Decimal::raw(a).checked_mul(cosmwasm_std::Decimal::raw(b)) {
        Ok(d) => Ok(d.atomics().u128()),
        Err(_) => Err(StdError::Overflow),
    }
}

/// `cosmwasm_std::Decimal::checked_pow` with exponent 2: it squares once and
/// multiplies by 1.0, so the result is the product of the decimal with itself.
#[verifier::external_body]
fn pow_checked(a: u128, exp: u32) -> (r: Result<u128, StdError>)
    requires
        exp == 2,
    ensures
        match spec_mul(a as int, a as int) {
            Ok(p) => r == Ok::<u128, StdError>(p as u128),
            Err(e) => r == Err::<u128, StdError>(e),
        },
{
    match cosmwasm_std::Decimal::raw(a).checked_pow(exp) {
        Ok(d) => Ok(d.atomics().u128()),
        Err(_) => Err(StdError::Overflow),
    }
}

/// `cosmwasm_std::Decimal::to_uint_ceil`: zero for zero, else one more than
/// the whole part of the decimal that is one atomic unit less.
#[verifier::external_body]
fn ceil_to_uint(a: u128) -> (r: u128)
    ensures
        r == ceil_units(a as int),
{
    cosmwasm_std::Decimal::raw(a).to_uint_ceil().u128()
}

/// A non-negative decimal number with 18 fractional digits.
#[derive(Clone, Copy, Debug, PartialEq, Eq, Structural)]
pub struct Decimal {
    atomics: u128,
}

impl View for Decimal {
    type V = int;

    /// The number of atomic units.
    closed spec fn view(&self) -> int {
        self.atomics as int
    }
}

impl Decimal {
    /// The decimal of the given number of atomic units.
    pub fn new(atomics: u128) -> (d: Decimal)
        ensures
            d@ == atomics,
    {
        Decimal { atomics }
    }

    /// 1.0
    pub fn one() -> (d: Decimal)
        ensures
            d@ == fractional(),
    {
        Decimal { atomics: DECIMAL_FRACTIONAL }
    }

    /// 0.0
    pub fn zero() -> (d: Decimal)
        ensures
            d@ == 0,
    {
        Decimal { atomics: 0 }
    }

    /// The number of atomic units.
    pub fn atomics(&self) -> (a: u128)
        ensures
            a == self@,
    {
        self.atomics
    }

    /// Every decimal fits the 128-bit range.
    pub broadcast proof fn view_fits(self)
        ensures
            fits(#[trigger] self@),
    {
    }

    /// Two decimals of the same atomic units are the same decimal.
    pub proof fn view_injective(self, other: Decimal)
        requires
            self@ == other@,
        ensures
            self == other,
    {
    }

    /// `numerator / denominator` as a decimal, truncated.
    pub fn checked_from_ratio(numerator: u128, denominator: u128) -> (r: Result<Decimal, StdError>)
        ensures
            match spec_from_ratio(numerator as int, denominator as int) {
                Ok(a) => r is Ok && r->Ok_0@ == a,
                Err(e) => r == Err::<Decimal, StdError>(e),
            },
    {
        match ratio_checked(numerator, denominator) {
            Ok(atomics) => Ok(Decimal { atomics }),
            Err(e) => Err(e),
        }
    }

    /// The product of two decimals, truncated.
    pub fn checked_mul(self, other: Decimal) -> (r: Result<Decimal, StdError>)
        ensures
            match spec_mul(self@, other@) {
                Ok(p) => r is Ok && r->Ok_0@ == p,
                Err(e) => r == Err::<Decimal, StdError>(e),
            },
    {
        match mul_checked(self.atomics, other.atomics) {
            Ok(atomics) => Ok(Decimal { atomics }),
            Err(e) => Err(e),
        }
    }

    /// The square of a decimal, truncated.
    pub fn checked_square(self) -> (r: Result<Decimal, StdError>)
        ensures
            match spec_mul(self@, self@) {
                Ok(p) => r is Ok && r->Ok_0@ == p,
                Err(e) => r == Err::<Decimal, StdError>(e),
            },
    {
        match pow_checked(self.atomics, 2) {
            Ok(atomics) => Ok(Decimal { atomics }),
            Err(e) => Err(e),
        }
    }

    /// The decimal rounded up to a whole number.
    pub fn to_uint_ceil(self) -> (units: u128)
        ensures
            units == ceil_units(self@),
    {
        ceil_to_uint(self.atomics)
    }

    /// The greater of two decimals.
    pub fn max(self, other: Decimal) -> (d: Decimal)
        ensures
            d@ == if self@ >= other@ { self@ } else { other@ },
            d == self || d == other,
    {
        if self.atomics >= other.atomics {
            self
        } else {
            other
        }
    }
}

} // verus!
