//! Unsigned fixed-point decimals.

use crate::ascii::bytes_into_string;
use crate::bignum::{
    biguint_eq, biguint_from_u16, biguint_le, biguint_mul, biguint_sub, biguint_value,
};
use crate::digits::{lemma_pow10_step, pow10};
use crate::to_string::{is_fixed_point_text, render_text, to_str_bytes, zero_text};
use core::ops::Sub;
use num::BigUint;
use vstd::prelude::*;
use vstd::std_specs::cmp::PartialEqSpecImpl;
use vstd::std_specs::ops::SubSpecImpl;

verus! {

/// Whether `rhs`, given with `shift` fewer fractional digits than `lhs`,
/// can be taken from `lhs` without going below zero.
pub open spec fn can_subtract(lhs: nat, rhs: nat, shift: nat) -> bool {
    rhs * pow10(shift) <= lhs
}

/// The magnitude of `lhs - rhs` at the precision of `lhs`, where `rhs` is
/// given with `shift` fewer fractional digits.
pub open spec fn aligned_difference(lhs: nat, rhs: nat, shift: nat) -> nat {
    (lhs - rhs * pow10(shift)) as nat
}

/// Subtracting a number from itself, at one precision, is always possible
/// and leaves zero.
pub proof fn lemma_sub_self(magnitude: nat)
    ensures
        can_subtract(magnitude, magnitude, 0),
        aligned_difference(magnitude, magnitude, 0) == 0,
{
    lemma_pow10_step(0);
}

/// Where the subtraction is possible, adding the aligned right-hand side
/// back to the difference restores the left-hand side.
pub proof fn lemma_difference_restores(lhs: nat, rhs: nat, shift: nat)
    requires
        can_subtract(lhs, rhs, shift),
    ensures
        aligned_difference(lhs, rhs, shift) + rhs * pow10(shift) == lhs,
{
}

/// Brings `magnitude` to a precision with `shift` more fractional digits.
pub fn scale_up(magnitude: BigUint, shift: u32) -> (scaled: BigUint)
    ensures
        biguint_value(scaled) == biguint_value(magnitude) * pow10(shift as nat),
{
    biguint_mul(magnitude, biguint_from_u16(10).pow(shift))
}

/// Subtracts `rhs`, given with `shift` fewer fractional digits, from `lhs`.
pub fn aligned_sub(lhs: BigUint, rhs: BigUint, shift: u32) -> (difference: BigUint)
    requires
        can_subtract(biguint_value(lhs), biguint_value(rhs), shift as nat),
    ensures
        biguint_value(difference) == aligned_difference(
            biguint_value(lhs),
            biguint_value(rhs),
            shift as nat,
        ),
{
    biguint_sub(lhs, scale_up(rhs, shift))
}

/// Subtracts `rhs`, given with `shift` fewer fractional digits, from `lhs`,
/// or returns `None` when the difference would be negative.
pub fn checked_aligned_sub(lhs: BigUint, rhs: BigUint, shift: u32) -> (difference: Option<BigUint>)
    ensures
        difference is Some <==> can_subtract(biguint_value(lhs), biguint_value(rhs), shift as nat),
        difference matches Some(d) ==> biguint_value(d) == aligned_difference(
            biguint_value(lhs),
            biguint_value(rhs),
            shift as nat,
        ),
{
    let scaled = scale_up(rhs, shift);
    if biguint_le(&scaled, &lhs) {
        Some(biguint_sub(lhs, scaled))
    } else {
        None
    }
}

/// A non-negative number `magnitude / 10^P`.
#[derive(Debug)]
pub struct UFloat<const P: u32> {
    pub(crate) value: BigUint,
}

impl<const P: u32> View for UFloat<P> {
    type V = nat;

    /// The magnitude: the number scaled by `10^P`.
    closed spec fn view(&self) -> nat {
        biguint_value(self.value)
    }
}

impl<const P: u32> UFloat<P> {
    /// A number has at least one fractional digit.
    #[verifier::type_invariant]
    spec fn has_fraction(self) -> bool {
        P >= 1
    }

    /// The number with the given magnitude, `value / 10^P`.
    pub fn new(value: BigUint) -> (r: Self)
        requires
            P >= 1,
        ensures
            r@ == biguint_value(value),
    {
        Self { value }
    }

    /// The magnitude.
    pub(crate) fn value(&self) -> (value: &BigUint)
        ensures
            biguint_value(*value) == self@,
    {
        &self.value
    }

    /// `self - rhs` at the precision of `self`, or `None` when `rhs` is the
    /// larger number.
    pub fn checked_sub<const Q: u32>(self, rhs: UFloat<Q>) -> (r: Option<UFloat<P>>)
        requires
            Q <= P,
        ensures
            r is Some <==> can_subtract(self@, rhs@, (P - Q) as nat),
            r matches Some(d) ==> d@ == aligned_difference(self@, rhs@, (P - Q) as nat),
    {
        proof {
            use_type_invariant(&self);
        }
        match checked_aligned_sub(self.value, rhs.value, P - Q) {
            Some(value) => Some(UFloat { value }),
            None => None,
        }
    }

    /// The canonical text: the integer part, a point, and exactly `P`
    /// fractional digits.
    pub fn to_string(&self) -> (text: String)
        ensures
            text@ == render_text(self@, P as nat),
            is_fixed_point_text(text@, P as nat),
            self@ == 0 ==> text@ == zero_text(P as nat),
    {
        let bytes = to_str_bytes(self);
        bytes_into_string(bytes)
    }
}

/// When `-` may be used: the right-hand side has at most as many fractional
/// digits as the left-hand side, and is not the larger number. What `-`
/// returns is stated with `sub` itself, by the magnitude of the result, and
/// not by naming a value here.
impl<const P: u32, const Q: u32> SubSpecImpl<UFloat<Q>> for UFloat<P> {
    open spec fn obeys_sub_spec() -> bool {
        false
    }

    open spec fn sub_req(self, rhs: UFloat<Q>) -> bool {
        Q <= P && can_subtract(self@, rhs@, (P - Q) as nat)
    }

    open spec fn sub_spec(self, rhs: UFloat<Q>) -> UFloat<P> {
        self
    }
}

impl<const P: u32, const Q: u32> Sub<UFloat<Q>> for UFloat<P> {
    type Output = UFloat<P>;

    /// `self - rhs` at the precision of `self`. The right-hand side may have
    /// fewer fractional digits, never more, and must not be the larger number.
    fn sub(self, rhs: UFloat<Q>) -> (r: UFloat<P>)
        ensures
            r@ == aligned_difference(self@, rhs@, (P - Q) as nat),
    {
        proof {
            use_type_invariant(&self);
        }
        UFloat { value: aligned_sub(self.value, rhs.value, P - Q) }
    }
}

impl<const P: u32> PartialEqSpecImpl for UFloat<P> {
    open spec fn obeys_eq_spec() -> bool {
        true
    }

    open spec fn eq_spec(&self, other: &Self) -> bool {
        self@ == other@
    }
}

impl<const P: u32> PartialEq for UFloat<P> {
    /// Two numbers of one precision are equal when their magnitudes are.
    fn eq(&self, other: &Self) -> (r: bool) {
        biguint_eq(&self.value, &other.value)
    }
}

impl<const P: u32> Eq for UFloat<P> {}

} // verus!
