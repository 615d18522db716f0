//! The errors of the library.
use vstd::prelude::*;

verus! {

/// Why a request was refused.
#[derive(Clone, Copy, Debug, PartialEq, Eq, Structural)]
pub enum ErrorCodes {
    /// The account that is to be created exists.
    AccountAlreadyInitialized,
    /// The signer is not listed among the authorized users.
    OnlyAuth,
    /// The protocol already is in the requested state.
    StatusAlreadySet,
    /// The result of an operation does not fit its integer type.
    MathError,
}

} // verus!
