//! Arithmetic that reports an overflow as an error.
use crate::errors::ErrorCodes;
use vstd::prelude::*;

verus! {

/// Adds two amounts, or reports that the sum does not fit a `u64`.
pub fn safe_add(left: u64, right: u64) -> (res: Result<u64, ErrorCodes>)
    ensures
        left + right <= u64::MAX ==> res == Ok::<u64, ErrorCodes>((left + right) as u64),
        left + right > u64::MAX ==> res == Err::<u64, ErrorCodes>(ErrorCodes::MathError),
{
    match left.checked_add(right) {
        Some(sum) => Ok(sum),
        None => Err(ErrorCodes::MathError),
    }
}

} // verus!
