//! Limits of the liquidity program.
use vstd::prelude::*;

verus! {

/// How many authorized users, and how many guardians, an authorization list has room for.
pub const MAX_AUTH_COUNT: usize = 10;

} // verus!
