//! The liquidity program.
pub mod admin;
pub mod constants;
pub mod state;
