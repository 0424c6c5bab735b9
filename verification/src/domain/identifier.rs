//! Identifiers of sections, terms and sales rows.

use vstd::prelude::*;

verus! {

/// An identifier: the 128 bits of a UUID, most significant byte first.
pub type Id = u128;

/// The bits of an identifier that hold the UUID version and variant.
pub const VERSION_VARIANT_MASK: u128 = 0x0000_0000_0000_f000_c000_0000_0000_0000;

/// Version 4 ("random") in the version bits, the RFC variant in the variant bits.
pub const RANDOM_VERSION_VARIANT: u128 = 0x0000_0000_0000_4000_8000_0000_0000_0000;

/// `id` is marked as a randomly generated (version 4) UUID.
pub open spec fn is_random_id(id: Id) -> bool {
    id & VERSION_VARIANT_MASK == RANDOM_VERSION_VARIANT
}

/// A fresh identifier from `uuid::Uuid::new_v4`, read as a number with
/// `Uuid::as_u128`.
///
/// Trusted: the 122 random bits are whatever the system's generator gave, so
/// nothing is claimed of them; the version and variant bits are the ones that
/// `new_v4` always sets. `new_v4` panics if the system has no randomness to
/// give.
#[verifier::external_body]
pub(crate) fn fresh_id() -> (id: Id)
    ensures
        is_random_id(id),
{
    uuid::Uuid::new_v4().as_u128()
}

} // verus!
