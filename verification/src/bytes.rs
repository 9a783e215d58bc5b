//! Little-endian integer fields and byte-buffer assembly.

use vstd::bytes::*;
use vstd::prelude::*;

verus! {

/// Appends `src` to `dst`.
pub fn append_bytes(dst: &mut Vec<u8>, src: &[u8])
    ensures
        final(dst)@ == old(dst)@ + src@,
{
    let mut i: usize = 0;
    while i < src.len()
        invariant
            i <= src@.len(),
            dst@ == old(dst)@ + src@.subrange(0, i as int),
        decreases src@.len() - i,
    {
        dst.push(src[i]);
        i = i + 1;
        assert(dst@ =~= old(dst)@ + src@.subrange(0, i as int));
    }
    assert(src@.subrange(0, src@.len() as int) =~= src@);
}

/// The bytes `data[start..end]` as an owned vector.
pub fn copy_range(data: &[u8], start: usize, end: usize) -> (v: Vec<u8>)
    requires
        start <= end <= data@.len(),
    ensures
        v@ == data@.subrange(start as int, end as int),
{
    let mut v: Vec<u8> = Vec::new();
    let mut i: usize = start;
    while i < end
        invariant
            start <= i <= end <= data@.len(),
            v@ == data@.subrange(start as int, i as int),
        decreases end - i,
    {
        v.push(data[i]);
        i = i + 1;
        assert(v@ =~= data@.subrange(start as int, i as int));
    }
    v
}

/// Whether `data[start..start + expected.len()]` equals `expected`.
pub fn range_equals(data: &[u8], start: usize, expected: &[u8]) -> (r: bool)
    requires
        start + expected@.len() <= data@.len(),
    ensures
        r == (data@.subrange(start as int, start + expected@.len()) == expected@),
{
    let n: usize = data.len();
    let mut i: usize = 0;
    while i < expected.len()
        invariant
            n == data@.len(),
            start + expected@.len() <= data@.len(),
            i <= expected@.len(),
            forall|j: int| 0 <= j < i ==> data@[start + j] == expected@[j],
        decreases expected@.len() - i,
    {
        if data[start + i] != expected[i] {
            assert(data@.subrange(start as int, start + expected@.len())[i as int] != expected@[i as int]);
            return false;
        }
        i = i + 1;
    }
    assert(data@.subrange(start as int, start + expected@.len()) =~= expected@);
    true
}

/// Reads the little-endian `u16` at `data[start..start + 2]`.
pub fn read_u16_le(data: &[u8], start: usize) -> (x: u16)
    requires
        start + 2 <= data@.len(),
    ensures
        x == spec_u16_from_le_bytes(data@.subrange(start as int, start + 2)),
{
    let n: usize = data.len();
    let v = copy_range(data, start, start + 2);
    u16_from_le_bytes(v.as_slice())
}

/// Reads the little-endian `u32` at `data[start..start + 4]`.
pub fn read_u32_le(data: &[u8], start: usize) -> (x: u32)
    requires
        start + 4 <= data@.len(),
    ensures
        x == spec_u32_from_le_bytes(data@.subrange(start as int, start + 4)),
{
    let n: usize = data.len();
    let v = copy_range(data, start, start + 4);
    u32_from_le_bytes(v.as_slice())
}

/// Reads the little-endian `u64` at `data[start..start + 8]`.
pub fn read_u64_le(data: &[u8], start: usize) -> (x: u64)
    requires
        start + 8 <= data@.len(),
    ensures
        x == spec_u64_from_le_bytes(data@.subrange(start as int, start + 8)),
{
    let n: usize = data.len();
    let v = copy_range(data, start, start + 8);
    u64_from_le_bytes(v.as_slice())
}

/// Appends the little-endian bytes of `x`.
pub fn push_u16_le(dst: &mut Vec<u8>, x: u16)
    ensures
        final(dst)@ == old(dst)@ + spec_u16_to_le_bytes(x),
{
    let b = u16_to_le_bytes(x);
    append_bytes(dst, b.as_slice());
}

/// Appends the little-endian bytes of `x`.
pub fn push_u32_le(dst: &mut Vec<u8>, x: u32)
    ensures
        final(dst)@ == old(dst)@ + spec_u32_to_le_bytes(x),
{
    let b = u32_to_le_bytes(x);
    append_bytes(dst, b.as_slice());
}

/// Appends the little-endian bytes of `x`.
pub fn push_u64_le(dst: &mut Vec<u8>, x: u64)
    ensures
        final(dst)@ == old(dst)@ + spec_u64_to_le_bytes(x),
{
    let b = u64_to_le_bytes(x);
    append_bytes(dst, b.as_slice());
}

pub proof fn lemma_le_roundtrips()
    ensures
        forall|x: u16| #![trigger spec_u16_to_le_bytes(x)]
            spec_u16_to_le_bytes(x).len() == 2 && spec_u16_from_le_bytes(spec_u16_to_le_bytes(x)) == x,
        forall|x: u32| #![trigger spec_u32_to_le_bytes(x)]
            spec_u32_to_le_bytes(x).len() == 4 && spec_u32_from_le_bytes(spec_u32_to_le_bytes(x)) == x,
        forall|x: u64| #![trigger spec_u64_to_le_bytes(x)]
            spec_u64_to_le_bytes(x).len() == 8 && spec_u64_from_le_bytes(spec_u64_to_le_bytes(x)) == x,
{
    lemma_auto_spec_u16_to_from_le_bytes();
    lemma_auto_spec_u32_to_from_le_bytes();
    lemma_auto_spec_u64_to_from_le_bytes();
}

} // verus!
