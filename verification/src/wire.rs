//! Reading and writing the pieces that instruction data is made of.

use vstd::bytes::{
    lemma_auto_spec_u32_to_from_le_bytes, lemma_auto_spec_u64_to_from_le_bytes,
    spec_u32_from_le_bytes, spec_u32_to_le_bytes, spec_u64_from_le_bytes, spec_u64_to_le_bytes,
    u32_from_le_bytes, u32_to_le_bytes, u64_from_le_bytes, u64_to_le_bytes,
};
use vstd::prelude::*;
use vstd::slice::slice_subrange;

verus! {

/// Appends `bytes` to `out`.
pub fn put_bytes(out: &mut Vec<u8>, bytes: &[u8])
    ensures
        final(out)@ == old(out)@ + bytes@,
{
    let mut i: usize = 0;
    while i < bytes.len()
        invariant
            i <= bytes.len(),
            out@ == old(out)@ + bytes@.subrange(0, i as int),
        decreases bytes.len() - i,
    {
        out.push(bytes[i]);
        i += 1;
        assert(out@ =~= old(out)@ + bytes@.subrange(0, i as int));
    }
    assert(bytes@.subrange(0, i as int) =~= bytes@);
}

/// Appends the eight little-endian bytes of `value` to `out`.
pub fn put_u64(out: &mut Vec<u8>, value: u64)
    ensures
        final(out)@ == old(out)@ + spec_u64_to_le_bytes(value),
{
    let bytes = u64_to_le_bytes(value);
    put_bytes(out, bytes.as_slice());
}

/// Appends the four little-endian bytes of `value` to `out`.
pub fn put_u32(out: &mut Vec<u8>, value: u32)
    ensures
        final(out)@ == old(out)@ + spec_u32_to_le_bytes(value),
{
    let bytes = u32_to_le_bytes(value);
    put_bytes(out, bytes.as_slice());
}

/// The 32 bytes of `bytes` that start at `at`.
pub fn get_32(bytes: &[u8], at: usize) -> (read: [u8; 32])
    requires
        at + 32 <= bytes@.len(),
    ensures
        read@ == bytes@.subrange(at as int, at + 32),
{
    let mut read = [0u8; 32];
    let mut i: usize = 0;
    let len: usize = bytes.len();
    while i < 32
        invariant
            i <= 32,
            at + 32 <= len == bytes@.len(),
            forall|j: int| 0 <= j < i ==> read@[j] == bytes@[at + j],
        decreases 32 - i,
    {
        read[i] = bytes[at + i];
        i += 1;
    }
    assert(read@ =~= bytes@.subrange(at as int, at + 32));
    read
}

/// The number whose eight little-endian bytes start at `at` in `bytes`.
pub fn get_u64(bytes: &[u8], at: usize) -> (value: u64)
    requires
        at + 8 <= bytes@.len(),
    ensures
        spec_u64_to_le_bytes(value) == bytes@.subrange(at as int, at + 8),
        value == spec_u64_from_le_bytes(bytes@.subrange(at as int, at + 8)),
{
    proof {
        lemma_auto_spec_u64_to_from_le_bytes();
    }
    let len: usize = bytes.len();
    assert(at + 8 <= len);
    u64_from_le_bytes(slice_subrange(bytes, at, at + 8))
}

/// The number whose four little-endian bytes start at `at` in `bytes`.
pub fn get_u32(bytes: &[u8], at: usize) -> (value: u32)
    requires
        at + 4 <= bytes@.len(),
    ensures
        spec_u32_to_le_bytes(value) == bytes@.subrange(at as int, at + 4),
        value == spec_u32_from_le_bytes(bytes@.subrange(at as int, at + 4)),
{
    proof {
        lemma_auto_spec_u32_to_from_le_bytes();
    }
    let len: usize = bytes.len();
    assert(at + 4 <= len);
    u32_from_le_bytes(slice_subrange(bytes, at, at + 4))
}

/// The bytes of `bytes` from `from` up to `to`.
pub fn get_bytes(bytes: &[u8], from: usize, to: usize) -> (read: Vec<u8>)
    requires
        from <= to <= bytes@.len(),
    ensures
        read@ == bytes@.subrange(from as int, to as int),
{
    let mut read: Vec<u8> = Vec::new();
    put_bytes(&mut read, slice_subrange(bytes, from, to));
    assert(read@ =~= bytes@.subrange(from as int, to as int));
    read
}

} // verus!
