//! Account identities.

use vstd::prelude::*;

verus! {

/// A 32-byte account address, held as four 64-bit words (bytes 0 to 7 in
/// `w0`, little-endian, and so on).
#[derive(Clone, Copy, Debug, PartialEq, Eq, Hash, Structural)]
pub struct Key {
    pub w0: u64,
    pub w1: u64,
    pub w2: u64,
    pub w3: u64,
}

} // verus!
