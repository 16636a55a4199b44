//! Distribution ids: the identifiers of the `uuid` crate, carried through as
//! they are.

use uuid::Uuid;
use vstd::prelude::*;

verus! {

/// `uuid::Uuid`, the identifier that names one sender-key distribution.
///
/// Nothing is read out of an identifier. Contracts speak of it only by
/// equality: two identifiers are the same value or they are not.
#[verifier::external_type_specification]
#[verifier::external_body]
pub struct ExUuid(Uuid);

/// Calls `==` of `uuid::Uuid`, which the crate derives over the identifier's
/// sixteen bytes. The contract claims that it tells exactly whether the two
/// identifiers are the same value.
#[verifier::external_body]
pub(crate) fn same_distribution(a: &Uuid, b: &Uuid) -> (same: bool)
    ensures
        same == (*a == *b),
{
    a == b
}

} // verus!
