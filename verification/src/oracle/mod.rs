//! The oracle program.
pub mod constants;
pub mod price;
