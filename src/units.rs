//! Unit-typed gas quantities and the saturating arithmetic that combines them.
use vstd::prelude::*;

verus! {

/// Gas in the fine-grained internal unit that a meter's balance is tracked in.
#[derive(Clone, Copy, Debug, PartialEq, Eq, Structural)]
pub struct InternalGas(pub u64);

/// Gas in the external unit that a transaction's sender budgets in.
#[derive(Clone, Copy, Debug, PartialEq, Eq, Structural)]
pub struct Gas(pub u64);

/// A count of bytes.
#[derive(Clone, Copy, Debug, PartialEq, Eq, Structural)]
pub struct NumBytes(pub u64);

/// A count of arguments or elements.
#[derive(Clone, Copy, Debug, PartialEq, Eq, Structural)]
pub struct NumArgs(pub u64);

/// The structural size of a runtime value (not its physical footprint).
#[derive(Clone, Copy, Debug, PartialEq, Eq, Structural)]
pub struct AbstractMemorySize(pub u64);

/// `a + b`, clamped to `u64::MAX`.
pub open spec fn add_sat(a: u64, b: u64) -> u64 {
    if a + b > u64::MAX {
        u64::MAX
    } else {
        (a + b) as u64
    }
}

/// `a * b`, clamped to `u64::MAX`.
pub open spec fn mul_sat(a: u64, b: u64) -> u64 {
    if a * b > u64::MAX {
        u64::MAX
    } else {
        (a * b) as u64
    }
}

/// `a - b`, clamped to zero.
pub open spec fn sub_floor(a: u64, b: u64) -> u64 {
    if a >= b {
        (a - b) as u64
    } else {
        0
    }
}

pub fn saturating_add(a: u64, b: u64) -> (r: u64)
    ensures
        r == add_sat(a, b),
{
    a.saturating_add(b)
}

pub fn saturating_mul(a: u64, b: u64) -> (r: u64)
    ensures
        r == mul_sat(a, b),
{
    match a.checked_mul(b) {
        Some(v) => v,
        None => u64::MAX,
    }
}

/// The cost of `quantity` units at `rate` internal gas per unit.
pub fn scale(rate: u64, quantity: u64) -> (r: InternalGas)
    ensures
        r.0 == mul_sat(rate, quantity),
{
    InternalGas(saturating_mul(rate, quantity))
}

} // verus!
