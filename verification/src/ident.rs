//! The random unique-identifier generator consumed, but not implemented,
//! by this crate.

use vstd::prelude::*;

verus! {

/// Relies on `uuid::Uuid::new_v4` and `Uuid::as_u128`: a freshly drawn
/// random (version 4) identifier as its 128-bit value. The result is
/// random, so no contract is stated; callers test the value they are
/// handed instead of assuming anything about it.
#[verifier::external_body]
pub fn fresh_post_id() -> u128 {
    uuid::Uuid::new_v4().as_u128()
}

} // verus!
