//! Byte strings: comparison, copying and little-endian integers.

use vstd::prelude::*;
use vstd::bytes::{
    spec_u32_from_le_bytes, spec_u32_to_le_bytes, spec_u64_from_le_bytes, spec_u64_to_le_bytes,
    u32_from_le_bytes, u32_to_le_bytes, u64_from_le_bytes, u64_to_le_bytes,
};
use vstd::slice::slice_subrange;
use crate::address::Address;

verus! {

/// Whether `bytes` stands in `data` at offset `at`.
pub open spec fn holds_at(data: Seq<u8>, at: int, bytes: Seq<u8>) -> bool {
    &&& 0 <= at
    &&& at + bytes.len() <= data.len()
    &&& data.subrange(at, at + bytes.len()) == bytes
}

/// The views of a list of byte strings.
pub open spec fn views(list: Seq<Vec<u8>>) -> Seq<Seq<u8>> {
    list.map_values(|v: Vec<u8>| v@)
}

/// The eight bytes of `x`, least significant first.
pub open spec fn le64(x: u64) -> Seq<u8> {
    spec_u64_to_le_bytes(x)
}

/// The four bytes of `x`, least significant first.
pub open spec fn le32(x: u32) -> Seq<u8> {
    spec_u32_to_le_bytes(x)
}

/// Four bytes stand for exactly one number.
pub proof fn lemma_le32(x: u32, y: u32)
    ensures
        le32(x).len() == 4,
        le32(x) == le32(y) ==> x == y,
{
    vstd::bytes::lemma_auto_spec_u32_to_from_le_bytes();
    assert(spec_u32_to_le_bytes(x).len() == 4);
    assert(spec_u32_to_le_bytes(y).len() == 4);
}

/// Reads the number whose four little-endian bytes stand at `at`.
pub fn read_u32(data: &[u8], at: usize) -> (x: u32)
    requires
        at + 4 <= data.len(),
    ensures
        holds_at(data@, at as int, le32(x)),
{
    let x = u32_from_le_bytes(slice_subrange(data, at, at + 4));
    proof {
        vstd::bytes::lemma_auto_spec_u32_to_from_le_bytes();
        let s = data@.subrange(at as int, at + 4);
        assert(spec_u32_to_le_bytes(spec_u32_from_le_bytes(s)) == s);
    }
    x
}

/// Appends the four little-endian bytes of `x`.
pub fn append_u32(out: &mut Vec<u8>, x: u32)
    ensures
        final(out)@ == old(out)@ + le32(x),
{
    let bytes = u32_to_le_bytes(x);
    out.extend_from_slice(bytes.as_slice());
}

/// Appends one byte.
pub fn append_byte(out: &mut Vec<u8>, x: u8)
    ensures
        final(out)@ == old(out)@ + seq![x],
{
    out.push(x);
    assert(out@ =~= old(out)@ + seq![x]);
}

/// The eight bytes of `x` in two's complement, least significant first.
pub open spec fn le64_signed(x: i64) -> Seq<u8> {
    le64(x as u64)
}

/// The two-byte little-endian number made of `low` and `high`.
pub open spec fn le16(low: u8, high: u8) -> int {
    low + 256 * high
}

/// Eight bytes stand for exactly one number.
pub proof fn lemma_le64(x: u64, y: u64)
    ensures
        le64(x).len() == 8,
        le64(x) == le64(y) ==> x == y,
{
    vstd::bytes::lemma_auto_spec_u64_to_from_le_bytes();
    assert(spec_u64_from_le_bytes(spec_u64_to_le_bytes(x)) == x);
    assert(spec_u64_from_le_bytes(spec_u64_to_le_bytes(y)) == y);
}

/// Eight bytes stand for exactly one signed number.
pub proof fn lemma_le64_signed(x: i64, y: i64)
    ensures
        le64_signed(x).len() == 8,
        le64_signed(x) == le64_signed(y) ==> x == y,
{
    lemma_le64(x as u64, y as u64);
    assert((x as u64) == (y as u64) ==> x == y) by (bit_vector);
}

/// Whether two byte strings are equal.
pub fn bytes_eq(a: &[u8], b: &[u8]) -> (r: bool)
    ensures
        r == (a@ == b@),
{
    if a.len() != b.len() {
        return false;
    }
    let mut i: usize = 0;
    while i < a.len()
        invariant
            i <= a.len(),
            a.len() == b.len(),
            forall|j: int| 0 <= j < i ==> a@[j] == b@[j],
        decreases a.len() - i,
    {
        if a[i] != b[i] {
            return false;
        }
        i += 1;
    }
    assert(a@ =~= b@);
    true
}

/// Reads the number whose eight little-endian bytes stand at `at`.
pub fn read_u64(data: &[u8], at: usize) -> (x: u64)
    requires
        at + 8 <= data.len(),
    ensures
        holds_at(data@, at as int, le64(x)),
{
    let x = u64_from_le_bytes(slice_subrange(data, at, at + 8));
    proof {
        vstd::bytes::lemma_auto_spec_u64_to_from_le_bytes();
        let s = data@.subrange(at as int, at + 8);
        assert(spec_u64_to_le_bytes(spec_u64_from_le_bytes(s)) == s);
    }
    x
}

/// Reads the signed number whose eight little-endian bytes stand at `at`.
pub fn read_i64(data: &[u8], at: usize) -> (x: i64)
    requires
        at + 8 <= data.len(),
    ensures
        holds_at(data@, at as int, le64_signed(x)),
{
    let u = read_u64(data, at);
    let x = #[verifier::truncate] (u as i64);
    assert((x as u64) == u) by (bit_vector)
        requires
            x == (u as i64),
    ;
    x
}

/// Reads the address whose 32 bytes stand at `at`.
pub fn read_address(data: &[u8], at: usize) -> (a: Address)
    requires
        at + 32 <= data.len(),
    ensures
        holds_at(data@, at as int, a@),
{
    let mut bytes = [0u8; 32];
    let mut i: usize = 0;
    while i < 32
        invariant
            i <= 32,
            at + 32 <= data.len(),
            forall|j: int| 0 <= j < i ==> bytes@[j] == data@[at + j],
        decreases 32 - i,
    {
        bytes[i] = data[at + i];
        i += 1;
    }
    assert(bytes@ =~= data@.subrange(at as int, at + 32));
    Address { bytes }
}

/// Reads the 20 bytes that stand at `at`.
pub fn read_id(data: &[u8], at: usize) -> (id: [u8; 20])
    requires
        at + 20 <= data.len(),
    ensures
        holds_at(data@, at as int, id@),
{
    let mut id = [0u8; 20];
    let mut i: usize = 0;
    while i < 20
        invariant
            i <= 20,
            at + 20 <= data.len(),
            forall|j: int| 0 <= j < i ==> id@[j] == data@[at + j],
        decreases 20 - i,
    {
        id[i] = data[at + i];
        i += 1;
    }
    assert(id@ =~= data@.subrange(at as int, at + 20));
    id
}

/// Appends the eight little-endian bytes of `x`.
pub fn append_u64(out: &mut Vec<u8>, x: u64)
    ensures
        final(out)@ == old(out)@ + le64(x),
{
    let bytes = u64_to_le_bytes(x);
    out.extend_from_slice(bytes.as_slice());
}

/// Appends the eight little-endian bytes of `x` in two's complement.
pub fn append_i64(out: &mut Vec<u8>, x: i64)
    ensures
        final(out)@ == old(out)@ + le64_signed(x),
{
    append_u64(out, #[verifier::truncate] (x as u64));
}

/// Appends the 32 bytes of `a`.
pub fn append_address(out: &mut Vec<u8>, a: &Address)
    ensures
        final(out)@ == old(out)@ + a@,
{
    out.extend_from_slice(a.bytes.as_slice());
}

} // verus!
