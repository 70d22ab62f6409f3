//! Single-writer coordination for an embedded database shared by many
//! isolated execution contexts.
//!
//! Exactly one context is elected leader and owns the database handle;
//! every other context forwards its queries to the leader over a shared
//! broadcast bus and matches each forwarded request to its eventual
//! response through a per-context correlation table.

use vstd::prelude::*;

pub mod coordination;
pub mod election;
pub mod messages;
pub mod properties;

verus! {

/// A fresh correlation or worker identity string.
///
/// Relies on `uuid::Uuid::new_v4` together with `Uuid`'s `Display`
/// implementation: a random version-4 UUID rendered in the hyphenated
/// form, which is always exactly 36 characters long.  The value is
/// random, so nothing beyond its length is promised.
#[verifier::external_body]
pub(crate) fn fresh_id() -> (r: String)
    ensures
        r@.len() == 36,
{
    uuid::Uuid::new_v4().to_string()
}

} // verus!
