//! A non-negative monetary amount counted in atto-units, the smallest
//! indivisible subunit of the currency, together with the checked and
//! saturating arithmetic that pricing is built on.

use vstd::prelude::*;

verus! {

/// The single failure mode of amount arithmetic: the mathematical result
/// does not fit the representation.
#[derive(Clone, Copy, PartialEq, Eq, Structural, Hash, Debug)]
pub enum ArithmeticError {
    Overflow,
}

/// A monetary amount: a number of atto-units, held as an unsigned 128-bit
/// integer. One milli-unit of the currency is `10^15` atto-units.
///
/// The view of an `Amount` is that number of atto-units.
#[derive(Clone, Copy, PartialEq, Eq, Structural, Hash, Debug)]
pub struct Amount {
    atto: u128,
}

impl View for Amount {
    type V = u128;

    closed spec fn view(&self) -> u128 {
        self.atto
    }
}

/// The amount holding exactly `atto` atto-units.
pub closed spec fn spec_from_atto(atto: u128) -> Amount {
    Amount { atto }
}

/// An amount is nothing but its count of atto-units.
pub proof fn lemma_amount_view_injective(a: Amount, b: Amount)
    requires
        a@ == b@,
    ensures
        a == b,
{
}

/// Rebuilding an amount from its own atto count gives the amount back.
pub proof fn lemma_from_atto_of_view(a: Amount)
    ensures
        spec_from_atto(a@) == a,
{
}

impl Amount {
    /// The zero amount.
    pub fn zero() -> (r: Amount)
        ensures
            r@ == 0,
    {
        Amount { atto: 0 }
    }

    /// The amount of exactly `atto` atto-units.
    pub fn from_atto(atto: u128) -> (r: Amount)
        ensures
            r == spec_from_atto(atto),
            r@ == atto,
    {
        Amount { atto }
    }

    /// The amount of `milli` milli-units, i.e. `milli * 10^15` atto-units.
    /// Every 64-bit milli count fits.
    pub fn from_milli(milli: u64) -> (r: Amount)
        ensures
            r@ == milli * 1_000_000_000_000_000,
    {
        proof {
            assert((milli as u128) * 1_000_000_000_000_000 <= (u64::MAX as u128)
                * 1_000_000_000_000_000) by (nonlinear_arith)
                requires
                    milli <= u64::MAX,
            ;
        }
        Amount { atto: (milli as u128) * 1_000_000_000_000_000 }
    }

    /// The number of atto-units this amount holds.
    pub fn as_atto(&self) -> (r: u128)
        ensures
            r == self@,
    {
        self.atto
    }

    /// Checked addition: the exact sum, or `Overflow` when it does not fit.
    pub fn try_add(self, other: Amount) -> (r: Result<Amount, ArithmeticError>)
        ensures
            self@ + other@ <= u128::MAX ==> (r matches Ok(total) && total@ == self@ + other@),
            self@ + other@ > u128::MAX ==> (r matches Err(e) && e == ArithmeticError::Overflow),
    {
        match self.atto.checked_add(other.atto) {
            Some(total) => Ok(Amount { atto: total }),
            None => Err(ArithmeticError::Overflow),
        }
    }

    /// Checked multiplication by a non-negative scalar: the exact product,
    /// or `Overflow` when it does not fit.
    pub fn try_mul(self, scalar: u128) -> (r: Result<Amount, ArithmeticError>)
        ensures
            self@ * scalar <= u128::MAX ==> (r matches Ok(total) && total@ == self@ * scalar),
            self@ * scalar > u128::MAX ==> (r matches Err(e) && e == ArithmeticError::Overflow),
    {
        match self.atto.checked_mul(scalar) {
            Some(total) => Ok(Amount { atto: total }),
            None => Err(ArithmeticError::Overflow),
        }
    }

    /// Saturating division: how many whole multiples of `other` fit in
    /// `self`. Division by the zero amount saturates to the maximum count
    /// rather than failing: a zero unit price buys unboundedly many units.
    pub fn saturating_div(self, other: Amount) -> (r: u128)
        ensures
            other@ == 0 ==> r == u128::MAX,
            other@ > 0 ==> r == self@ / other@,
    {
        if other.atto == 0 {
            u128::MAX
        } else {
            self.atto / other.atto
        }
    }
}

impl Default for Amount {
    /// The default amount is zero.
    fn default() -> (r: Amount)
        ensures
            r@ == 0,
    {
        Amount { atto: 0 }
    }
}

} // verus!
