//! The funds invariant engine: overflow/underflow-checked arithmetic over
//! balances. Every mutating ledger operation routes its balance updates
//! through these primitives; nothing in the crate wraps silently.

use vstd::prelude::*;

verus! {

/// Returned by `add_checked` when the mathematical sum does not fit the
/// balance width.
#[derive(Clone, Copy, Debug, PartialEq, Eq, Structural)]
pub struct OverflowError;

/// Returned by `sub_checked` when the subtrahend exceeds the minuend, i.e.
/// the mathematical difference would be negative.
#[derive(Clone, Copy, Debug, PartialEq, Eq, Structural)]
pub struct UnderflowError;

/// Checked balance addition: `Ok(a + b)` exactly when the sum fits in the
/// balance width, and `Err(OverflowError)` otherwise. Never wraps.
pub fn add_checked(a: u64, b: u64) -> (r: Result<u64, OverflowError>)
    ensures
        a + b <= u64::MAX ==> r == Ok::<u64, OverflowError>((a + b) as u64),
        a + b > u64::MAX ==> r == Err::<u64, OverflowError>(OverflowError),
{
    match a.checked_add(b) {
        Some(s) => Ok(s),
        None => Err(OverflowError),
    }
}

/// Checked balance subtraction: `Ok(a - b)` exactly when `a >= b`, and
/// `Err(UnderflowError)` otherwise. Never produces a negative balance.
pub fn sub_checked(a: u64, b: u64) -> (r: Result<u64, UnderflowError>)
    ensures
        a >= b ==> r == Ok::<u64, UnderflowError>((a - b) as u64),
        a < b ==> r == Err::<u64, UnderflowError>(UnderflowError),
{
    match a.checked_sub(b) {
        Some(d) => Ok(d),
        None => Err(UnderflowError),
    }
}

} // verus!
