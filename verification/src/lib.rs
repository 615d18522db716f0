//! Account state of a lending protocol, with its rules stated and proved.
//!
//! * [`liquidity`]: the accounts of the liquidity program (the global state, the
//!   authorization lists, the claims of users) and the two instructions that set up
//!   the protocol and lock or unlock it.
//! * [`oracle`]: the constants of the oracle program and the rules by which a
//!   published price is accepted.
//! * [`math`]: arithmetic that reports an overflow as an error.
//! * [`keys`]: what the library takes for granted of account addresses.
pub mod errors;
pub mod keys;
pub mod liquidity;
pub mod math;
pub mod oracle;
