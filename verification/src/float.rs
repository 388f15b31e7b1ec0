//! Signed fixed-point decimals: a sign and an unsigned magnitude.

use crate::bignum::{bigint_into_parts, bigint_value, biguint_value, Signum};
use crate::ascii::{as_text, bytes_into_string};
use crate::to_string::{render, render_text, to_str_bytes};
use crate::ufloat::UFloat;
use num::{BigInt, BigUint};
use vstd::math::abs;
use vstd::prelude::*;
use vstd::std_specs::cmp::PartialEqSpecImpl;

verus! {

/// ASCII `-`.
pub const ASCII_MINUS: u8 = 45;

/// The sign of a `Float`.
#[derive(Clone, Copy, Debug, PartialEq, Eq, Structural)]
pub enum Sign {
    Positive,
    Negative,
}

/// The sign that a `Float` made from `value` carries.
///
/// Only a number above zero is `Positive`. Zero has no sign of its own; it
/// is stored as `Negative`, and so is written with a leading minus.
pub open spec fn sign_of(value: int) -> Sign {
    if value > 0 {
        Sign::Positive
    } else {
        Sign::Negative
    }
}

/// The canonical text of a signed number, as ASCII bytes: the rendering of
/// the magnitude, with a minus in front when the sign is `Negative`. A
/// `Positive` number gets no sign.
pub open spec fn render_signed(sign: Sign, magnitude: nat, precision: nat) -> Seq<u8> {
    match sign {
        Sign::Positive => render(magnitude, precision),
        Sign::Negative => seq![ASCII_MINUS] + render(magnitude, precision),
    }
}

/// The canonical text of a signed number.
pub open spec fn render_signed_text(sign: Sign, magnitude: nat, precision: nat) -> Seq<char> {
    as_text(render_signed(sign, magnitude, precision))
}

/// The text of a `Negative` number is a minus followed by the text of its
/// magnitude; the text of a `Positive` number is the text of its magnitude,
/// with no sign in front.
pub proof fn lemma_render_signed_text(magnitude: nat, precision: nat)
    ensures
        render_signed_text(Sign::Negative, magnitude, precision) == seq!['-'] + render_text(
            magnitude,
            precision,
        ),
        render_signed_text(Sign::Positive, magnitude, precision) == render_text(
            magnitude,
            precision,
        ),
{
}

/// Splits an integer into its sign and its absolute value.
pub fn split_sign(value: BigInt) -> (parts: (Sign, BigUint))
    ensures
        parts.0 == sign_of(bigint_value(value)),
        biguint_value(parts.1) == abs(bigint_value(value)),
{
    let (signum, magnitude) = bigint_into_parts(value);
    let sign = match signum {
        Signum::Positive => Sign::Positive,
        Signum::Zero => Sign::Negative,
        Signum::Negative => Sign::Negative,
    };
    (sign, magnitude)
}

/// What a `Float` stands for: its sign and its magnitude.
pub struct FloatView {
    pub sign: Sign,
    pub magnitude: nat,
}

impl FloatView {
    /// The number scaled by `10^P`: the magnitude, taken below zero when the
    /// sign is `Negative`.
    pub open spec fn scaled(self) -> int {
        match self.sign {
            Sign::Positive => self.magnitude as int,
            Sign::Negative => -(self.magnitude as int),
        }
    }
}

/// A number `± magnitude / 10^P`.
#[derive(Debug)]
pub struct Float<const P: u32> {
    pub(crate) sign: Sign,
    pub(crate) float: UFloat<P>,
}

impl<const P: u32> View for Float<P> {
    type V = FloatView;

    closed spec fn view(&self) -> FloatView {
        FloatView { sign: self.sign, magnitude: self.float@ }
    }
}

impl<const P: u32> Float<P> {
    /// The number `value / 10^P`, split into its sign and its absolute value.
    /// Zero is stored with the sign `Negative`.
    pub fn new(value: BigInt) -> (r: Self)
        requires
            P >= 1,
        ensures
            r@.sign == sign_of(bigint_value(value)),
            r@.magnitude == abs(bigint_value(value)),
            r@.scaled() == bigint_value(value),
    {
        let (sign, magnitude) = split_sign(value);
        Self { sign, float: UFloat::<P>::new(magnitude) }
    }

    /// The canonical text: a minus if the sign is `Negative`, then the
    /// rendering of the magnitude.
    pub fn to_string(&self) -> (text: String)
        ensures
            text@ == render_signed_text(self@.sign, self@.magnitude, P as nat),
    {
        let mut bytes: Vec<u8> = Vec::new();
        match self.sign {
            Sign::Positive => {},
            Sign::Negative => {
                bytes.push(ASCII_MINUS);
            },
        }
        let mut digits = to_str_bytes(&self.float);
        bytes.append(&mut digits);
        bytes_into_string(bytes)
    }
}

impl<const P: u32> PartialEqSpecImpl for Float<P> {
    open spec fn obeys_eq_spec() -> bool {
        true
    }

    open spec fn eq_spec(&self, other: &Self) -> bool {
        self@ == other@
    }
}

impl<const P: u32> PartialEq for Float<P> {
    /// Two numbers of one precision are equal when their signs and their
    /// magnitudes are.
    fn eq(&self, other: &Self) -> (r: bool) {
        self.sign == other.sign && self.float == other.float
    }
}

impl<const P: u32> Eq for Float<P> {}

} // verus!
