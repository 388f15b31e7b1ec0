//! Fixed-point decimal numbers: an arbitrary-precision magnitude read as
//! `magnitude / 10^P`, where the number `P` of fractional digits is part of
//! the type.

pub mod ascii;
pub mod bignum;
pub mod digits;
pub mod float;
pub mod to_string;
pub mod ufloat;

pub use float::{Float, Sign};
pub use ufloat::UFloat;
