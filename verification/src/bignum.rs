//! The arbitrary-precision integers of the `num` crate, as this library sees them.
//!
//! `BigUint` and `BigInt` are opaque to the verifier. Each stands for the
//! number it holds, and every operation the library performs on one is
//! described here in terms of that number. Nothing in this module is proved:
//! the contracts restate what `num` documents.

use crate::digits::digits_le;
use num::{BigInt, BigUint};
use vstd::arithmetic::power::pow;
use vstd::math::abs;
use vstd::prelude::*;

verus! {

/// `num::BigUint`: a natural number of any size.
#[verifier::external_type_specification]
#[verifier::external_body]
pub struct ExBigUint(num::BigUint);

/// `num::BigInt`: an integer of any size.
#[verifier::external_type_specification]
#[verifier::external_body]
pub struct ExBigInt(num::BigInt);

/// The natural number that a `BigUint` holds.
pub uninterp spec fn biguint_value(n: BigUint) -> nat;

/// The integer that a `BigInt` holds.
pub uninterp spec fn bigint_value(n: BigInt) -> int;

/// How an integer compares with zero.
#[derive(Clone, Copy, Debug, PartialEq, Eq, Structural)]
pub enum Signum {
    Negative,
    Zero,
    Positive,
}

/// The `Signum` of an integer.
pub open spec fn signum(n: int) -> Signum {
    if n < 0 {
        Signum::Negative
    } else if n == 0 {
        Signum::Zero
    } else {
        Signum::Positive
    }
}

/// `BigUint::to_radix_le`: the digits of `n` in base `radix`, least
/// significant first, each as a number below `radix`. Zero gives the single
/// digit `0`; otherwise the last digit is not zero. `num` asks for a radix
/// from 2 to 256.
pub assume_specification[ BigUint::to_radix_le ](n: &BigUint, radix: u32) -> (digits: Vec<u8>)
    requires
        2 <= radix <= 256,
    ensures
        digits@ == digits_le(biguint_value(*n), radix as nat),
;

/// `BigUint::pow`: `base` raised to `exponent`, with `base^0 == 1`.
pub assume_specification[ BigUint::pow ](base: &BigUint, exponent: u32) -> (power: BigUint)
    ensures
        biguint_value(power) == pow(biguint_value(*base) as int, exponent as nat),
;

/// `BigUint::from(u16)`: the same number as a `BigUint`.
#[verifier::external_body]
pub(crate) fn biguint_from_u16(n: u16) -> (r: BigUint)
    ensures
        biguint_value(r) == n,
{
    BigUint::from(n)
}

/// `BigUint * BigUint`: the product.
#[verifier::external_body]
pub(crate) fn biguint_mul(a: BigUint, b: BigUint) -> (r: BigUint)
    ensures
        biguint_value(r) == biguint_value(a) * biguint_value(b),
{
    a * b
}

/// `BigUint - BigUint`: the difference. `num` panics when `b` is larger
/// than `a`, so callers must rule that out.
#[verifier::external_body]
pub(crate) fn biguint_sub(a: BigUint, b: BigUint) -> (r: BigUint)
    requires
        biguint_value(b) <= biguint_value(a),
    ensures
        biguint_value(r) == biguint_value(a) - biguint_value(b),
{
    a - b
}

/// `BigUint <= BigUint`: the order of the two numbers.
#[verifier::external_body]
pub(crate) fn biguint_le(a: &BigUint, b: &BigUint) -> (r: bool)
    ensures
        r == (biguint_value(*a) <= biguint_value(*b)),
{
    a <= b
}

/// `BigUint == BigUint`: whether the two hold the same number.
#[verifier::external_body]
pub(crate) fn biguint_eq(a: &BigUint, b: &BigUint) -> (r: bool)
    ensures
        r == (biguint_value(*a) == biguint_value(*b)),
{
    a == b
}

/// `BigInt::into_parts`: the sign and the absolute value. `num` gives
/// `Minus` below zero, `NoSign` at zero and `Plus` above.
#[verifier::external_body]
pub(crate) fn bigint_into_parts(n: BigInt) -> (r: (Signum, BigUint))
    ensures
        r.0 == signum(bigint_value(n)),
        biguint_value(r.1) == abs(bigint_value(n)),
{
    let (sign, magnitude) = n.into_parts();
    let sign = match sign {
        num::bigint::Sign::Minus => Signum::Negative,
        num::bigint::Sign::NoSign => Signum::Zero,
        num::bigint::Sign::Plus => Signum::Positive,
    };
    (sign, magnitude)
}

} // verus!
