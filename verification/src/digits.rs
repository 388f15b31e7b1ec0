//! Positional notation: the digits of a natural number in a given base.

use vstd::arithmetic::div_mod::{
    lemma_basic_div, lemma_div_denominator, lemma_fundamental_div_mod,
};
use vstd::arithmetic::power::{lemma_pow_positive, pow};
use vstd::prelude::*;

verus! {

/// The digits of `n` in base `radix`, least significant digit first.
///
/// Zero is written as the single digit `0`; every other number is written
/// without a zero in its most significant place.
pub open spec fn digits_le(n: nat, radix: nat) -> Seq<u8>
    decreases n,
    via digits_le_decreases
{
    if radix < 2 || n < radix {
        seq![n as u8]
    } else {
        seq![(n % radix) as u8] + digits_le(n / radix, radix)
    }
}

#[via_fn]
proof fn digits_le_decreases(n: nat, radix: nat) {
    if radix >= 2 && n >= radix {
        assert(n / radix < n) by (nonlinear_arith)
            requires
                radix >= 2,
                n >= radix,
        ;
    }
}

/// The number that the least-significant-first `digits` denote in base
/// `radix`.
pub open spec fn digits_value(digits: Seq<u8>, radix: nat) -> nat
    decreases digits.len(),
{
    if digits.len() == 0 {
        0
    } else {
        digits[0] as nat + radix * digits_value(digits.drop_first(), radix)
    }
}

/// `10^exponent`.
pub open spec fn pow10(exponent: nat) -> nat {
    pow(10, exponent) as nat
}

/// Every entry of `digits` is a decimal digit.
pub open spec fn is_decimal(digits: Seq<u8>) -> bool {
    forall|i: int| 0 <= i < digits.len() ==> #[trigger] digits[i] < 10
}

/// A number's decimal digits are decimal digits, and there is at least one.
pub proof fn lemma_digits_le_decimal(n: nat)
    ensures
        digits_le(n, 10).len() >= 1,
        is_decimal(digits_le(n, 10)),
    decreases n,
{
    if n >= 10 {
        lemma_digits_le_decimal(n / 10);
    }
}

/// A number of two or more decimal digits has no zero in its most
/// significant place.
pub proof fn lemma_digits_le_leading(n: nat)
    ensures
        digits_le(n, 10).len() >= 2 ==> digits_le(n, 10).last() != 0,
    decreases n,
{
    if n >= 10 {
        lemma_digits_le_leading(n / 10);
        if n >= 100 {
            lemma_digits_le_decimal(n / 10 / 10);
        }
    }
}

/// The digits of a number denote that number.
pub proof fn lemma_digits_le_value(n: nat, radix: nat)
    requires
        2 <= radix <= 256,
    ensures
        digits_value(digits_le(n, radix), radix) == n,
    decreases n,
{
    let digits = digits_le(n, radix);
    if n < radix {
        assert(digits_value(digits.drop_first(), radix) == 0);
        assert(radix * 0 == 0);
    } else {
        lemma_digits_le_value(n / radix, radix);
        assert(digits.drop_first() =~= digits_le(n / radix, radix));
        lemma_fundamental_div_mod(n as int, radix as int);
    }
}

/// How the powers of ten are built: `10^0 == 1`, `10^(e+1) == 10 * 10^e`,
/// and none of them is zero.
pub proof fn lemma_pow10_step(exponent: nat)
    ensures
        pow10(0) == 1,
        pow10(exponent) >= 1,
        pow10(exponent + 1) == 10 * pow10(exponent),
{
    reveal(pow);
    lemma_pow_positive(10, exponent + 1);
}

/// The powers of ten grow with the exponent.
pub proof fn lemma_pow10_increases(low: nat, high: nat)
    requires
        low <= high,
    ensures
        pow10(low) <= pow10(high),
    decreases high - low,
{
    if low < high {
        lemma_pow10_increases(low, (high - 1) as nat);
        lemma_pow10_step((high - 1) as nat);
    }
}

/// A number is below ten to the number of its decimal digits.
pub proof fn lemma_digits_le_bound(n: nat)
    ensures
        n < pow10(digits_le(n, 10).len()),
    decreases n,
{
    if n < 10 {
        lemma_pow10_step(0);
    } else {
        lemma_digits_le_bound(n / 10);
        lemma_pow10_step(digits_le(n / 10, 10).len());
    }
}

/// The decimal digits from place `skip` upwards are the digits of the
/// number divided by `10^skip`.
pub proof fn lemma_digits_le_skip(n: nat, skip: nat)
    requires
        skip < digits_le(n, 10).len(),
    ensures
        digits_le(n / pow10(skip), 10) == digits_le(n, 10).subrange(
            skip as int,
            digits_le(n, 10).len() as int,
        ),
    decreases skip,
{
    let digits = digits_le(n, 10);
    if skip == 0 {
        lemma_pow10_step(0);
        assert(digits.subrange(0, digits.len() as int) =~= digits);
    } else {
        let below = (skip - 1) as nat;
        lemma_digits_le_skip(n / 10, below);
        lemma_pow10_step(below);
        lemma_div_denominator(n as int, 10, pow10(below) as int);
        let rest = digits_le(n / 10, 10);
    }
}

/// The decimal digit at place `place` is `(n / 10^place) % 10`. Beyond the
/// last digit that formula gives zero.
pub proof fn lemma_digit_at(n: nat, place: nat)
    ensures
        place < digits_le(n, 10).len() ==> digits_le(n, 10)[place as int] == (n / pow10(place))
            % 10,
        place >= digits_le(n, 10).len() ==> (n / pow10(place)) % 10 == 0,
{
    let digits = digits_le(n, 10);
    if place < digits.len() {
        lemma_digits_le_skip(n, place);
        let quotient = n / pow10(place);
        lemma_pow10_step(place);
        let upper = digits_le(quotient, 10);
        assert(upper[0] == (quotient % 10) as u8);
    } else {
        lemma_digits_le_bound(n);
        lemma_pow10_increases(digits.len(), place);
        lemma_basic_div(n as int, pow10(place) as int);
    }
}

/// Multiplying by a power of ten puts that many zeros below the decimal
/// digits of a number other than zero.
pub proof fn lemma_digits_le_scaled(n: nat, shift: nat)
    requires
        n > 0,
    ensures
        digits_le(n * pow10(shift), 10) == Seq::new(shift, |i: int| 0u8) + digits_le(n, 10),
    decreases shift,
{
    if shift == 0 {
        lemma_pow10_step(0);
        assert(Seq::new(0, |i: int| 0u8) + digits_le(n, 10) =~= digits_le(n, 10));
    } else {
        let below = (shift - 1) as nat;
        lemma_digits_le_scaled(n, below);
        lemma_pow10_step(below);
        let lower = n * pow10(below);
        let scaled = n * pow10(shift);
        assert(scaled == 10 * lower) by (nonlinear_arith)
            requires
                scaled == n * pow10(shift),
                lower == n * pow10(below),
                pow10(shift) == 10 * pow10(below),
        ;
        assert(lower >= 1) by (nonlinear_arith)
            requires
                lower == n * pow10(below),
                n >= 1,
                pow10(below) >= 1,
        ;
    }
}

} // verus!
