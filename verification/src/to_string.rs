//! The canonical rendering of a fixed-point magnitude: its decimal digits
//! with the point placed `precision` digits from the right.

use crate::ascii::as_text;
use crate::bignum::biguint_value;
use crate::digits::{
    digits_le, is_decimal, lemma_digit_at, lemma_digits_le_bound, lemma_digits_le_decimal,
    lemma_digits_le_leading, lemma_digits_le_scaled, lemma_digits_le_skip, lemma_pow10_increases,
    pow10,
};
use crate::ufloat::UFloat;
use num::BigUint;
use vstd::arithmetic::div_mod::lemma_basic_div;
use vstd::prelude::*;

verus! {

/// ASCII `0`.
pub const ASCII_ZERO: u8 = 48;

/// ASCII `.`.
pub const ASCII_POINT: u8 = 46;

/// The ASCII character of a decimal digit.
pub open spec fn ascii_digit(digit: u8) -> u8 {
    (digit + ASCII_ZERO) as u8
}

/// The given least-significant-first digits as ASCII text, most significant
/// digit first.
pub open spec fn numeral(digits: Seq<u8>) -> Seq<u8> {
    Seq::new(digits.len(), |i: int| ascii_digit(digits[digits.len() - 1 - i]))
}

/// `count` ASCII zeros.
pub open spec fn zeros(count: nat) -> Seq<u8> {
    Seq::new(count, |i: int| ASCII_ZERO)
}

/// The text of a number given by its least-significant-first `digits`, with
/// `precision` of them after the point.
///
/// When the digits do not reach past the point, the integer part is a single
/// `0` and the fraction is padded with zeros on the left. Otherwise the
/// lowest `precision` digits form the fraction and the rest the integer part.
/// Nothing is trimmed.
pub open spec fn place_point(digits: Seq<u8>, precision: nat) -> Seq<u8> {
    if digits.len() <= precision {
        seq![ASCII_ZERO, ASCII_POINT] + zeros((precision - digits.len()) as nat) + numeral(digits)
    } else {
        numeral(digits.subrange(precision as int, digits.len() as int)) + seq![ASCII_POINT]
            + numeral(digits.subrange(0, precision as int))
    }
}

/// The canonical text of `magnitude / 10^precision`, as ASCII bytes.
pub open spec fn render(magnitude: nat, precision: nat) -> Seq<u8> {
    place_point(digits_le(magnitude, 10), precision)
}

/// The canonical text of `magnitude / 10^precision`.
pub open spec fn render_text(magnitude: nat, precision: nat) -> Seq<char> {
    as_text(render(magnitude, precision))
}

/// Whether `byte` is one of the ASCII characters `0` to `9`.
pub open spec fn is_ascii_digit(byte: u8) -> bool {
    ASCII_ZERO <= byte <= ASCII_ZERO + 9
}

/// Whether `text` reads as digits, one point, and exactly `precision`
/// digits after it, with at least one digit before the point.
pub open spec fn is_fixed_point(text: Seq<u8>, precision: nat) -> bool {
    &&& text.len() >= precision + 2
    &&& text[text.len() - precision - 1] == ASCII_POINT
    &&& forall|i: int|
        0 <= i < text.len() && i != text.len() - precision - 1 ==> is_ascii_digit(
            #[trigger] text[i],
        )
}

/// Whether `text` reads as digits, one point, and exactly `precision`
/// digits after it, with at least one digit before the point.
pub open spec fn is_fixed_point_text(text: Seq<char>, precision: nat) -> bool {
    &&& text.len() >= precision + 2
    &&& text[text.len() - precision - 1] == '.'
    &&& forall|i: int|
        0 <= i < text.len() && i != text.len() - precision - 1 ==> '0' <= #[trigger] text[i] <= '9'
}

/// The text `0.` followed by `precision` zeros.
pub open spec fn zero_text(precision: nat) -> Seq<char> {
    seq!['0', '.'] + Seq::new(precision, |i: int| '0')
}

fn map_to_ascii(digit: u8) -> (ascii: u8)
    requires
        digit < 10,
    ensures
        ascii == ascii_digit(digit),
{
    digit + ASCII_ZERO
}

/// Appends the digits `digits[from..to]` to `text`, most significant first.
fn push_numeral(text: &mut Vec<u8>, digits: &[u8], from: usize, to: usize)
    requires
        from <= to <= digits@.len(),
        is_decimal(digits@),
    ensures
        final(text)@ == old(text)@ + numeral(digits@.subrange(from as int, to as int)),
{
    let ghost part = digits@.subrange(from as int, to as int);
    let mut i = to;
    while i > from
        invariant
            from <= i <= to <= digits@.len(),
            is_decimal(digits@),
            part == digits@.subrange(from as int, to as int),
            text@ == old(text)@ + numeral(part).subrange(0, to - i),
        decreases i - from,
    {
        i -= 1;
        text.push(map_to_ascii(digits[i]));
    }
}

/// Lays out the least-significant-first decimal `digits` as text with
/// `precision` digits after the point.
pub fn render_digits(digits: &[u8], precision: usize) -> (text: Vec<u8>)
    requires
        is_decimal(digits@),
    ensures
        text@ == place_point(digits@, precision as nat),
{
    let len = digits.len();
    let mut text: Vec<u8> = Vec::new();
    if precision >= len {
        // The whole value lies after the point.
        text.push(ASCII_ZERO);
        text.push(ASCII_POINT);
        let zeros_after_point = precision - len;
        let mut written: usize = 0;
        while written < zeros_after_point
            invariant
                written <= zeros_after_point,
                text@ == seq![ASCII_ZERO, ASCII_POINT] + zeros(written as nat),
            decreases zeros_after_point - written,
        {
            text.push(ASCII_ZERO);
            written += 1;
        }
        push_numeral(&mut text, digits, 0, len);
    } else {
        push_numeral(&mut text, digits, precision, len);
        text.push(ASCII_POINT);
        push_numeral(&mut text, digits, 0, precision);
    }
    text
}

/// The canonical text of `magnitude / 10^precision`, as ASCII bytes.
pub fn render_magnitude(magnitude: &BigUint, precision: usize) -> (text: Vec<u8>)
    ensures
        text@ == render(biguint_value(*magnitude), precision as nat),
        is_fixed_point(text@, precision as nat),
        biguint_value(*magnitude) == 0 ==> text@ == seq![ASCII_ZERO, ASCII_POINT] + zeros(
            precision as nat,
        ),
{
    let digits = magnitude.to_radix_le(10);
    proof {
        lemma_digits_le_decimal(biguint_value(*magnitude));
    }
    render_digits(digits.as_slice(), precision)
}

/// The canonical text of `ufloat`, as ASCII bytes.
pub fn to_str_bytes<const P: u32>(ufloat: &UFloat<P>) -> (text: Vec<u8>)
    ensures
        text@ == render(ufloat@, P as nat),
        is_fixed_point(text@, P as nat),
        ufloat@ == 0 ==> text@ == seq![ASCII_ZERO, ASCII_POINT] + zeros(P as nat),
{
    render_magnitude(ufloat.value(), P as usize)
}

/// A rendering holds exactly `precision` characters after its decimal point:
/// it consists of digits and a single point, and the point stands
/// `precision` places before the end.
pub proof fn lemma_render_fraction_width(magnitude: nat, precision: nat)
    ensures
        is_fixed_point(render(magnitude, precision), precision),
{
    lemma_digits_le_decimal(magnitude);
}

/// The text of a rendering holds exactly `precision` characters after its
/// decimal point: it consists of digits and a single point, and the point
/// stands `precision` places before the end.
pub proof fn lemma_render_text_fraction_width(magnitude: nat, precision: nat)
    ensures
        is_fixed_point_text(render_text(magnitude, precision), precision),
{
    lemma_render_fraction_width(magnitude, precision);
}

/// Zero renders as `0.` followed by `precision` zeros.
pub proof fn lemma_render_zero(precision: nat)
    ensures
        render(0, precision) == seq![ASCII_ZERO, ASCII_POINT] + zeros(precision),
{
    let digits = digits_le(0, 10);
}

/// The text of zero is `0.` followed by `precision` zeros.
pub proof fn lemma_render_text_zero(precision: nat)
    ensures
        render_text(0, precision) == zero_text(precision),
{
}

/// The integer part of a rendering has no zero in front of it: where the
/// text starts with `0`, that zero is the whole integer part.
pub proof fn lemma_render_no_leading_zero(magnitude: nat, precision: nat)
    ensures
        render(magnitude, precision)[0] == ASCII_ZERO ==> render(magnitude, precision)[1]
            == ASCII_POINT,
{
    lemma_digits_le_decimal(magnitude);
    lemma_digits_le_leading(magnitude);
}

/// A rendering shows the number `magnitude / 10^precision`. Before the point
/// stands the decimal numeral of the quotient, rounded down. After it, the
/// character `place + 1` positions from the end is the digit of
/// `magnitude` at decimal place `place`.
pub proof fn lemma_render_value(magnitude: nat, precision: nat)
    ensures
        ({
            let text = render(magnitude, precision);
            let point = text.len() - precision - 1;
            &&& text.subrange(0, point) == numeral(digits_le(magnitude / pow10(precision), 10))
            &&& forall|i: int|
                point < i < text.len() ==> #[trigger] text[i] == ascii_digit(
                    ((magnitude / pow10((text.len() - 1 - i) as nat)) % 10) as u8,
                )
        }),
{
    let digits = digits_le(magnitude, 10);
    let text = render(magnitude, precision);
    let point = text.len() - precision - 1;
    assert forall|i: int| point < i < text.len() implies #[trigger] text[i] == ascii_digit(
        ((magnitude / pow10((text.len() - 1 - i) as nat)) % 10) as u8,
    ) by {
        lemma_digit_at(magnitude, (text.len() - 1 - i) as nat);
    }
    if digits.len() <= precision {
        lemma_digits_le_bound(magnitude);
        lemma_pow10_increases(digits.len(), precision);
        lemma_basic_div(magnitude as int, pow10(precision) as int);
    } else {
        lemma_digits_le_skip(magnitude, precision);
    }
}

/// Bringing a magnitude to a precision with `shift` more digits appends
/// `shift` zeros to its rendering and changes nothing else.
pub proof fn lemma_render_scaled(magnitude: nat, precision: nat, shift: nat)
    ensures
        render(magnitude * pow10(shift), precision + shift) == render(magnitude, precision)
            + zeros(shift),
{
    let scaled = magnitude * pow10(shift);
    if magnitude == 0 {
        assert(scaled == 0) by (nonlinear_arith)
            requires
                scaled == magnitude * pow10(shift),
                magnitude == 0,
        ;
    } else {
        lemma_digits_le_scaled(magnitude, shift);
    }
}

} // verus!
