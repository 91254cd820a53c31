//! On-chain account addresses as plain values.
//!
//! An address is 32 bytes; it is held as four 64-bit little-endian words so
//! that equality is structural and contracts can speak of it directly.

use vstd::prelude::*;

verus! {

/// A 32-byte on-chain address, split into four little-endian 64-bit words:
/// `w0` holds bytes 0..8, `w1` bytes 8..16, `w2` bytes 16..24, `w3` bytes 24..32.
#[derive(Clone, Copy, PartialEq, Eq, Structural, Debug, Hash)]
pub struct Address {
    pub w0: u64,
    pub w1: u64,
    pub w2: u64,
    pub w3: u64,
}

impl Address {
    /// The all-zeroes address, used as the sentinel voter of an empty quote.
    pub open spec fn zero_spec() -> Address {
        Address { w0: 0, w1: 0, w2: 0, w3: 0 }
    }

    /// Builds the all-zeroes address.
    pub fn zero() -> (r: Address)
        ensures
            r == Address::zero_spec(),
    {
        Address { w0: 0, w1: 0, w2: 0, w3: 0 }
    }

    /// Builds an address from its four little-endian words.
    pub fn from_words(w0: u64, w1: u64, w2: u64, w3: u64) -> (r: Address)
        ensures
            r == (Address { w0, w1, w2, w3 }),
    {
        Address { w0, w1, w2, w3 }
    }
}

} // verus!
