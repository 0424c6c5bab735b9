//! Money and allocation ratios.

use crate::domain::decimal::{pow10, DecimalFraction, FixedDecimal};
use core::cmp::Ordering;
use vstd::prelude::*;
use vstd::std_specs::cmp::{PartialEqSpecImpl, PartialOrdSpecImpl};
use vstd::std_specs::ops::{AddSpecImpl, NegSpecImpl, SubSpecImpl};

verus! {

/// An exact amount of money. It may be negative.
///
/// Two amounts are equal, and are ordered, by their numeric value: `1.0` and
/// `1.00` are the same amount.
#[derive(Debug, Clone, Copy)]
pub struct Money(pub FixedDecimal);

impl View for Money {
    type V = DecimalFraction;

    open spec fn view(&self) -> DecimalFraction {
        self.0@
    }
}

impl Money {
    /// The amount that holds `value`.
    pub open spec fn of(value: DecimalFraction) -> Money {
        Money(FixedDecimal::from_fraction(value))
    }

    /// The amount with the opposite sign.
    pub open spec fn negated(self) -> Money {
        Money::of(self@.negated())
    }

    pub fn new(amount: FixedDecimal) -> (m: Money)
        ensures
            m == Money(amount),
    {
        Money(amount)
    }

    pub fn amount(&self) -> (d: FixedDecimal)
        ensures
            d == self.0,
    {
        self.0
    }

    pub fn zero() -> (m: Money)
        ensures
            m@ == (DecimalFraction { mantissa: 0, scale: 0 }),
    {
        Money(FixedDecimal::zero())
    }

    pub fn is_zero(&self) -> (b: bool)
        ensures
            b == self@.is_zero(),
    {
        self.0.is_zero()
    }

    /// The amount in decimal notation, with all the digits of its scale.
    pub fn to_text(&self) -> (text: String)
        ensures
            text@ == self@.text(),
    {
        self.0.to_text()
    }

    /// The sum, or `None` where it cannot be held.
    pub fn checked_add(self, rhs: Money) -> (r: Option<Money>)
        ensures
            match r {
                Some(m) => self@.plus(rhs@) == Some(m@),
                None => self@.plus(rhs@) is None,
            },
    {
        broadcast use FixedDecimal::lemma_from_own_fraction;

        match self.0.checked_add(&rhs.0) {
            Some(_) => Some(self + rhs),
            None => None,
        }
    }

    /// The difference, or `None` where it cannot be held.
    pub fn checked_sub(self, rhs: Money) -> (r: Option<Money>)
        ensures
            match r {
                Some(m) => self@.minus(rhs@) == Some(m@),
                None => self@.minus(rhs@) is None,
            },
    {
        broadcast use FixedDecimal::lemma_from_own_fraction;

        match self.0.checked_sub(&rhs.0) {
            Some(_) => Some(self - rhs),
            None => None,
        }
    }
}

impl core::ops::Add for Money {
    type Output = Money;

    fn add(self, rhs: Money) -> (r: Money) {
        broadcast use FixedDecimal::lemma_from_own_fraction;

        match self.0.checked_add(&rhs.0) {
            Some(d) => Money(d),
            None => vstd::pervasive::unreached(),
        }
    }
}

impl AddSpecImpl for Money {
    open spec fn obeys_add_spec() -> bool {
        true
    }

    /// The sum must be one that can be held.
    open spec fn add_req(self, rhs: Money) -> bool {
        self@.plus(rhs@) is Some
    }

    open spec fn add_spec(self, rhs: Money) -> Money {
        Money::of(self@.plus(rhs@).unwrap())
    }
}

impl core::ops::Sub for Money {
    type Output = Money;

    fn sub(self, rhs: Money) -> (r: Money) {
        broadcast use FixedDecimal::lemma_from_own_fraction;

        match self.0.checked_sub(&rhs.0) {
            Some(d) => Money(d),
            None => vstd::pervasive::unreached(),
        }
    }
}

impl SubSpecImpl for Money {
    open spec fn obeys_sub_spec() -> bool {
        true
    }

    /// The difference must be one that can be held.
    open spec fn sub_req(self, rhs: Money) -> bool {
        self@.minus(rhs@) is Some
    }

    open spec fn sub_spec(self, rhs: Money) -> Money {
        Money::of(self@.minus(rhs@).unwrap())
    }
}

impl core::ops::Neg for Money {
    type Output = Money;

    fn neg(self) -> (r: Money) {
        broadcast use FixedDecimal::lemma_from_own_fraction;

        Money(self.0.negated())
    }
}

impl NegSpecImpl for Money {
    open spec fn obeys_neg_spec() -> bool {
        true
    }

    open spec fn neg_req(self) -> bool {
        true
    }

    open spec fn neg_spec(self) -> Money {
        self.negated()
    }
}

impl PartialEq for Money {
    fn eq(&self, other: &Money) -> (b: bool) {
        self.0.has_same_value(&other.0)
    }
}

impl PartialEqSpecImpl for Money {
    open spec fn obeys_eq_spec() -> bool {
        true
    }

    open spec fn eq_spec(&self, other: &Money) -> bool {
        self@.same_value(other@)
    }
}

impl Eq for Money {

}

impl PartialOrd for Money {
    fn partial_cmp(&self, other: &Money) -> (r: Option<Ordering>) {
        if self.0.has_same_value(&other.0) {
            Some(Ordering::Equal)
        } else if self.0.is_less_than(&other.0) {
            Some(Ordering::Less)
        } else {
            Some(Ordering::Greater)
        }
    }
}

impl PartialOrdSpecImpl for Money {
    open spec fn obeys_partial_cmp_spec() -> bool {
        true
    }

    open spec fn partial_cmp_spec(&self, other: &Money) -> Option<Ordering> {
        if self@.same_value(other@) {
            Some(Ordering::Equal)
        } else if self@.less_than(other@) {
            Some(Ordering::Less)
        } else {
            Some(Ordering::Greater)
        }
    }
}

/// The ratio offered was below 0 or above 1.
#[derive(Debug, Clone, Copy, PartialEq, Eq)]
pub struct RangeError;

/// Whether `value` lies in the closed interval from 0 to 1.
pub open spec fn in_unit_interval(value: DecimalFraction) -> bool {
    0 <= value.mantissa <= pow10(value.scale)
}

/// A share of a whole: a decimal between 0 and 1, both included.
#[derive(Debug, Clone, Copy)]
pub struct AllocationRatio(FixedDecimal);

impl View for AllocationRatio {
    type V = DecimalFraction;

    closed spec fn view(&self) -> DecimalFraction {
        self.0@
    }
}

impl AllocationRatio {
    #[verifier::type_invariant]
    spec fn within_unit_interval(self) -> bool {
        in_unit_interval(self.0@)
    }

    /// The ratio `ratio`, or `RangeError` where it is below 0 or above 1.
    pub fn new(ratio: FixedDecimal) -> (r: Result<AllocationRatio, RangeError>)
        ensures
            r is Ok <==> in_unit_interval(ratio@),
            r matches Ok(a) ==> a@ == ratio@,
    {
        let zero = FixedDecimal::zero();
        let one = FixedDecimal::one();
        assert(pow10(0) == 1);
        if ratio.is_less_than(&zero) || one.is_less_than(&ratio) {
            return Err(RangeError);
        }
        Ok(AllocationRatio(ratio))
    }

    /// The ratio as a decimal.
    pub fn value(&self) -> (d: FixedDecimal)
        ensures
            d@ == self@,
            in_unit_interval(d@),
    {
        proof {
            use_type_invariant(self);
        }
        self.0
    }
}

impl PartialEq for AllocationRatio {
    fn eq(&self, other: &AllocationRatio) -> (b: bool) {
        self.0.has_same_value(&other.0)
    }
}

impl PartialEqSpecImpl for AllocationRatio {
    open spec fn obeys_eq_spec() -> bool {
        true
    }

    open spec fn eq_spec(&self, other: &AllocationRatio) -> bool {
        self@.same_value(other@)
    }
}

} // verus!
