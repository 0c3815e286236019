//! Bit fields cut out by the `arbitrary-int` crate.
use vstd::prelude::*;

verus! {

/// Calls `arbitrary_int::u5::extract_u16` with bit 0 as the start. Trusted to give the five low
/// bits of `value`. It panics only for a start bit above 11.
#[verifier::external_body]
pub(crate) fn low_5_bits(value: u16) -> (bits: u8)
    ensures
        bits == value % 32,
{
    arbitrary_int::u5::extract_u16(value, 0).value()
}

/// Calls `arbitrary_int::u2::extract_u16` with bit 0 as the start. Trusted to give the two low
/// bits of `value`. It panics only for a start bit above 14.
#[verifier::external_body]
pub(crate) fn low_2_bits(value: u16) -> (bits: u8)
    ensures
        bits == value % 4,
{
    arbitrary_int::u2::extract_u16(value, 0).value()
}

} // verus!
