//! Little-endian field extraction from raw account bytes.
//!
//! Every account format the core ingests is a sequence of fixed-width
//! little-endian integers, 32-byte addresses, and one-byte tags; these
//! readers are the only way the parsers touch bytes, so each parser's
//! contract reduces to these spec functions.

use vstd::prelude::*;
use vstd::bytes::{spec_u32_from_le_bytes, spec_u64_from_le_bytes, u32_from_le_bytes, u64_from_le_bytes};
use vstd::slice::slice_subrange;
use crate::address::Address;

verus! {

/// The 64-bit little-endian integer stored at byte offset `i` of `s`.
pub open spec fn le_u64(s: Seq<u8>, i: int) -> u64 {
    spec_u64_from_le_bytes(s.subrange(i, i + 8))
}

/// The 32-bit little-endian integer stored at byte offset `i` of `s`.
pub open spec fn le_u32(s: Seq<u8>, i: int) -> u32 {
    spec_u32_from_le_bytes(s.subrange(i, i + 4))
}

/// The 32-byte address stored at byte offset `i` of `s`, as four words.
pub open spec fn addr_at(s: Seq<u8>, i: int) -> Address {
    Address {
        w0: le_u64(s, i),
        w1: le_u64(s, i + 8),
        w2: le_u64(s, i + 16),
        w3: le_u64(s, i + 24),
    }
}

/// Reads the 64-bit little-endian integer at offset `i`.
pub fn read_u64(data: &[u8], i: usize) -> (r: u64)
    requires
        i + 8 <= data@.len(),
    ensures
        r == le_u64(data@, i as int),
{
    let _len: usize = data.len();
    u64_from_le_bytes(slice_subrange(data, i, i + 8))
}

/// Reads the 32-bit little-endian integer at offset `i`.
pub fn read_u32(data: &[u8], i: usize) -> (r: u32)
    requires
        i + 4 <= data@.len(),
    ensures
        r == le_u32(data@, i as int),
{
    let _len: usize = data.len();
    u32_from_le_bytes(slice_subrange(data, i, i + 4))
}

/// Reads the 32-byte address at offset `i`.
pub fn read_addr(data: &[u8], i: usize) -> (r: Address)
    requires
        i + 32 <= data@.len(),
    ensures
        r == addr_at(data@, i as int),
{
    let _len: usize = data.len();
    Address {
        w0: read_u64(data, i),
        w1: read_u64(data, i + 8),
        w2: read_u64(data, i + 16),
        w3: read_u64(data, i + 24),
    }
}

} // verus!
