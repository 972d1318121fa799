//! The identity under which the reconciliation cycle signs.

use vstd::prelude::*;

verus! {

/// The four bytes that name the purpose of the cycle's keys in the host's
/// key store: the ASCII letters `rcw!`.
pub const KEY_TYPE: [u8; 4] = [0x72, 0x63, 0x77, 0x21];

/// Marks the signing identity of the reconciliation cycle. The host looks
/// for sr25519 keys stored under [`KEY_TYPE`] and signs with one of them.
#[derive(Clone, Copy, Debug, PartialEq, Eq)]
pub struct TestAuthId;

impl TestAuthId {
    /// The key purpose that this identity stands for.
    pub fn key_type() -> (id: [u8; 4])
        ensures
            id == KEY_TYPE,
    {
        KEY_TYPE
    }
}

} // verus!
