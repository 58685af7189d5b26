//! Checked integer conversions from the `cast` crate

use vstd::prelude::*;

verus! {

/// Narrows a `u32` to a `u16` with `cast::u16`, which gives `Ok` with the
/// same value when it fits in 16 bits and `Err(Error::Overflow)` otherwise;
/// the error is mapped to `None`.
#[verifier::external_body]
pub(crate) fn checked_u16(x: u32) -> (r: Option<u16>)
    ensures
        r is Some <==> x <= 0xffff,
        r matches Some(v) ==> v == x,
{
    cast::u16(x).ok()
}

/// Widens a `u16` to a `u32` with `cast::u32`, which keeps the value.
#[verifier::external_body]
pub(crate) fn widen_u16(x: u16) -> (r: u32)
    ensures
        r == x,
{
    cast::u32(x)
}

/// Widens a `u8` to a `u32` with `cast::u32`, which keeps the value.
#[verifier::external_body]
pub(crate) fn widen_u8(x: u8) -> (r: u32)
    ensures
        r == x,
{
    cast::u32(x)
}

/// Widens a `u8` to a `u16` with `cast::u16`, which keeps the value.
#[verifier::external_body]
pub(crate) fn widen_u8_u16(x: u8) -> (r: u16)
    ensures
        r == x,
{
    cast::u16(x)
}

} // verus!
