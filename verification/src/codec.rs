//! Deterministic binary encoding of the core's values.
//!
//! Fixed-width integers are little-endian; strings are prefixed by a 32-bit
//! length and carried as UTF-8 bytes; an enum starts with a one-byte tag.
//! Decoding is the exact inverse of encoding: every decoder here returns a
//! value whose encoding is the input, and returns `None` exactly on inputs
//! that no value encodes to.

use vstd::bytes::{
    spec_u32_from_le_bytes,
    spec_u32_to_le_bytes,
    spec_u64_from_le_bytes,
    spec_u64_to_le_bytes,
    u32_from_le_bytes,
    u64_from_le_bytes,
};
use vstd::prelude::*;
use vstd::slice::slice_subrange;

verus! {

/// Reads the eight bytes starting at `offset` as a little-endian integer.
pub fn read_u64_le(data: &[u8], offset: usize) -> (r: u64)
    requires
        offset + 8 <= data@.len(),
    ensures
        r == spec_u64_from_le_bytes(data@.subrange(offset as int, offset + 8)),
{
    let len = data.len();
    u64_from_le_bytes(slice_subrange(data, offset, offset + 8))
}

/// Reads the four bytes starting at `offset` as a little-endian integer.
pub fn read_u32_le(data: &[u8], offset: usize) -> (r: u32)
    requires
        offset + 4 <= data@.len(),
    ensures
        r == spec_u32_from_le_bytes(data@.subrange(offset as int, offset + 4)),
{
    let len = data.len();
    u32_from_le_bytes(slice_subrange(data, offset, offset + 4))
}

/// Appends the little-endian encoding of `x` to `out`.
pub fn write_u64_le(out: &mut Vec<u8>, x: u64)
    ensures
        final(out)@ == old(out)@ + spec_u64_to_le_bytes(x),
{
    let mut bytes = vstd::bytes::u64_to_le_bytes(x);
    out.append(&mut bytes);
}

/// Appends the little-endian encoding of `x` to `out`.
pub fn write_u32_le(out: &mut Vec<u8>, x: u32)
    ensures
        final(out)@ == old(out)@ + spec_u32_to_le_bytes(x),
{
    let mut bytes = vstd::bytes::u32_to_le_bytes(x);
    out.append(&mut bytes);
}

/// Relies on `String::from_utf8`: it succeeds exactly on valid UTF-8
/// input, and the returned string's bytes are the input bytes.
#[verifier::external_body]
pub(crate) fn string_from_utf8(v: Vec<u8>) -> (r: Option<String>)
    ensures
        r is Some <==> vstd::utf8::valid_utf8(v@),
        r matches Some(s) ==> vstd::utf8::encode_utf8(s@) == v@,
{
    String::from_utf8(v).ok()
}

/// Copies `n` bytes starting at `offset` into a fresh vector.
pub fn read_bytes(data: &[u8], offset: usize, n: usize) -> (r: Vec<u8>)
    requires
        offset + n <= data@.len(),
    ensures
        r@ == data@.subrange(offset as int, offset + n),
{
    let len = data.len();
    vstd::slice::slice_to_vec(slice_subrange(data, offset, offset + n))
}

} // verus!
