//! Account identities.
//!
//! A caller is known by the `AccountId` that the host hands over with each
//! call. The ledger never looks inside one: it stores them and tells two of
//! them apart.

use vstd::prelude::*;

verus! {

/// `ink::primitives::AccountId`, carried through as an opaque value.
#[verifier::external_type_specification]
#[verifier::external_body]
pub struct ExAccountId(ink::primitives::AccountId);

/// `==` on `ink::primitives::AccountId` is the derived comparison of its 32
/// bytes: it answers `true` exactly when both sides are the same account.
pub assume_specification[ <ink::primitives::AccountId as PartialEq>::eq ](
    a: &ink::primitives::AccountId,
    b: &ink::primitives::AccountId,
) -> (iguales: bool)
    ensures
        iguales == (*a == *b),
;

} // verus!
