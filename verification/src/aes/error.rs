//! The ways in which a request to the cipher can be refused.

use vstd::prelude::*;

verus! {

/// Why the cipher refused an input. Nothing is transformed once one of these
/// is returned.
#[derive(Copy, Clone, Debug, PartialEq, Eq, Structural)]
pub enum AesError {
    /// The key is not exactly 16 bytes long.
    InvalidKeyLength,
    /// A block, on its way in or out, is not exactly 16 bytes long.
    InvalidBlockLength,
    /// Encryption was asked for before a key had been set.
    NotInitialized,
}

} // verus!
