//! The salt that all trials of one run share.

use vstd::prelude::*;
use rand::Rng;

verus! {

/// Length in bytes of the salt of a run.
pub const SALT_LENGTH: usize = 16;

/// Draws sixteen bytes from `rand::thread_rng`.
///
/// The bytes differ from call to call, so the contract says nothing of them.
#[verifier::external_body]
pub(crate) fn fresh_salt() -> (salt: [u8; SALT_LENGTH]) {
    rand::thread_rng().gen::<[u8; SALT_LENGTH]>()
}

} // verus!
