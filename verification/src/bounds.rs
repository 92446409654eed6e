//! The ceilings of the five result widths, as `num_traits` reports them.

use vstd::prelude::*;

verus! {

/// Calls `<u8 as num_traits::Bounded>::max_value`, which hands back `u8::MAX`.
#[verifier::external_body]
pub(crate) fn max_value_u8() -> (r: u8)
    ensures
        r == u8::MAX,
{
    num_traits::Bounded::max_value()
}

/// Calls `<u16 as num_traits::Bounded>::max_value`, which hands back `u16::MAX`.
#[verifier::external_body]
pub(crate) fn max_value_u16() -> (r: u16)
    ensures
        r == u16::MAX,
{
    num_traits::Bounded::max_value()
}

/// Calls `<u32 as num_traits::Bounded>::max_value`, which hands back `u32::MAX`.
#[verifier::external_body]
pub(crate) fn max_value_u32() -> (r: u32)
    ensures
        r == u32::MAX,
{
    num_traits::Bounded::max_value()
}

/// Calls `<u64 as num_traits::Bounded>::max_value`, which hands back `u64::MAX`.
#[verifier::external_body]
pub(crate) fn max_value_u64() -> (r: u64)
    ensures
        r == u64::MAX,
{
    num_traits::Bounded::max_value()
}

/// Calls `<u128 as num_traits::Bounded>::max_value`, which hands back `u128::MAX`.
#[verifier::external_body]
pub(crate) fn max_value_u128() -> (r: u128)
    ensures
        r == u128::MAX,
{
    num_traits::Bounded::max_value()
}

/// Calls `<u128 as num_traits::Zero>::zero`, which hands back `0`.
#[verifier::external_body]
pub(crate) fn zero_u128() -> (r: u128)
    ensures
        r == 0,
{
    num_traits::Zero::zero()
}

/// Calls `<u128 as num_traits::One>::one`, which hands back `1`.
#[verifier::external_body]
pub(crate) fn one_u128() -> (r: u128)
    ensures
        r == 1,
{
    num_traits::One::one()
}

} // verus!
