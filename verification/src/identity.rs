//! Player identities.
//!
//! An identity is a `candid::Principal`. The engine never looks inside one:
//! it stores identities, hands them back, and asks whether two are the same.

use candid::Principal;
use vstd::prelude::*;

verus! {

/// `candid::Principal`, carried through the engine as an opaque value.
#[verifier::external_type_specification]
#[verifier::external_body]
pub struct ExPrincipal(candid::Principal);

/// Whether two identities are the same one.
///
/// Trusted: calls `Principal`'s `==`, which is derived over all of the
/// principal's fields, so it answers `true` exactly for identical values.
#[verifier::external_body]
pub(crate) fn same_identity(a: &Principal, b: &Principal) -> (same: bool)
    ensures
        same == (*a == *b),
{
    a == b
}

} // verus!
