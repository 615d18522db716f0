//! Account addresses, as `anchor_lang` provides them.
use anchor_lang::prelude::Pubkey;
use vstd::prelude::*;

verus! {

/// Declares `anchor_lang::prelude::Pubkey`, the 32 byte address of an account.
///
/// The library stores addresses and compares them; it never looks inside one.
#[verifier::external_type_specification]
#[verifier::external_body]
pub struct ExPubkey(Pubkey);

/// Calls the `==` of `Pubkey`.
///
/// Trusted: the operator is the derived one, over the type's only field, an array of
/// 32 bytes. So it answers `true` exactly when the two addresses are the same value.
#[verifier::external_body]
pub(crate) fn same_key(left: &Pubkey, right: &Pubkey) -> (same: bool)
    ensures
        same == (*left == *right),
{
    left == right
}

/// Specifies `Pubkey::clone`.
///
/// Trusted: the impl is the derived one of a `Copy` type, so the clone is the address
/// itself.
pub assume_specification[ <Pubkey as Clone>::clone ](key: &Pubkey) -> (copy: Pubkey)
    ensures
        copy == *key,
;

} // verus!
