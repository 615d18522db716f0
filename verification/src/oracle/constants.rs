//! Constants of the oracle program.
use vstd::arithmetic::power::pow;
use vstd::prelude::*;

verus! {

/// Decimals of an exchange rate.
pub const RATE_OUTPUT_DECIMALS: u32 = 15;

pub const MAX_SOURCES: usize = 4;

pub const MAX_AUTH_COUNT: usize = 10;

pub const SECONDS_PER_HOUR: u64 = 3600;

/// In seconds: 10 minutes.
pub const MAX_AGE_OPERATE: u64 = 600;

/// In seconds: 2 hours. Liquidations ask less of a price, to keep the protocol safe.
pub const MAX_AGE_LIQUIDATE: u64 = 7200;

/// A liquidation refuses a price whose confidence interval exceeds 1/25 = 4% of it.
pub const CONFIDENCE_SCALE_FACTOR_LIQUIDATE: u64 = 25;

/// An operation refuses a price whose confidence interval exceeds 1/50 = 2% of it.
pub const CONFIDENCE_SCALE_FACTOR_OPERATE: u64 = 50;

/// Ten to the tenth.
pub const MAX_DIVISOR: u128 = 10_000_000_000;

/// Ten to the tenth.
pub const MAX_MULTIPLIER: u128 = 10_000_000_000;

/// 0.5% max fee ceiling.
pub const MAX_FEE_CEILING: u64 = 5;

pub const AVG_SLOT_TIME_IN_MILLISECONDS: u64 = 400;

pub const LAMPORTS_PER_SOL: u64 = 1_000_000_000;

/// Ten to the power of [`RATE_OUTPUT_DECIMALS`].
pub const FACTOR: u128 = 1_000_000_000_000_000;

pub const MILLISECONDS_PER_SECOND: u64 = 1000;

pub const DEFAULT_DIVISOR: u128 = 1;

pub const DEFAULT_MULTIPLIER: u128 = 1;

pub const SINGLE_POOL_ACCOUNTS_COUNT: usize = 3;

pub const JUP_LEND_ACCOUNTS_COUNT: usize = 4;

/// The scale of exchange rates and the limits of divisors and multipliers are the powers
/// of ten that they stand for, and the defaults are within those limits.
pub proof fn law_scales_are_powers_of_ten()
    ensures
        FACTOR == pow(10, RATE_OUTPUT_DECIMALS as nat),
        MAX_DIVISOR == pow(10, 10),
        MAX_MULTIPLIER == pow(10, 10),
        DEFAULT_DIVISOR <= MAX_DIVISOR,
        DEFAULT_MULTIPLIER <= MAX_MULTIPLIER,
{
    reveal_with_fuel(pow, 16);
}

} // verus!
