//! Little-endian integers in byte sequences.

use vstd::prelude::*;

verus! {

/// The little-endian 16-bit integer stored at `b[i..i + 2]`.
pub open spec fn le16_at(b: Seq<u8>, i: int) -> int {
    b[i] as int + 256 * b[i + 1] as int
}

/// The little-endian 32-bit integer stored at `b[i..i + 4]`.
pub open spec fn le32_at(b: Seq<u8>, i: int) -> int {
    le16_at(b, i) + 65536 * le16_at(b, i + 2)
}

/// The little-endian 64-bit integer stored at `b[i..i + 8]`.
pub open spec fn le64_at(b: Seq<u8>, i: int) -> int {
    le32_at(b, i) + 4294967296 * le32_at(b, i + 4)
}

/// The two little-endian bytes of `v`.
pub open spec fn le16_bytes(v: int) -> Seq<u8> {
    seq![(v % 256) as u8, (v / 256 % 256) as u8]
}

/// The four little-endian bytes of `v`.
pub open spec fn le32_bytes(v: int) -> Seq<u8> {
    le16_bytes(v % 65536) + le16_bytes(v / 65536)
}

/// The eight little-endian bytes of `v`.
pub open spec fn le64_bytes(v: int) -> Seq<u8> {
    le32_bytes(v % 4294967296) + le32_bytes(v / 4294967296)
}

pub proof fn lemma_le16_round_trip(v: int, rest: Seq<u8>)
    requires
        0 <= v < 0x1_0000,
    ensures
        le16_at(le16_bytes(v) + rest, 0) == v,
        (le16_bytes(v) + rest).len() == 2 + rest.len(),
{
    let b = le16_bytes(v) + rest;
    assert(b[0] == (v % 256) as u8);
    assert(b[1] == (v / 256 % 256) as u8);
}

pub proof fn lemma_le32_round_trip(v: int, rest: Seq<u8>)
    requires
        0 <= v < 0x1_0000_0000,
    ensures
        le32_at(le32_bytes(v) + rest, 0) == v,
        (le32_bytes(v) + rest).len() == 4 + rest.len(),
{
    let lo = le16_bytes(v % 65536);
    let hi = le16_bytes(v / 65536);
    lemma_le16_round_trip(v % 65536, hi + rest);
    lemma_le16_round_trip(v / 65536, rest);
    assert(le32_bytes(v) + rest =~= lo + (hi + rest));
    assert((lo + (hi + rest)).subrange(2, 4 + rest.len() as int) =~= hi + rest);
    let b = le32_bytes(v) + rest;
    assert(b[2] == (hi + rest)[0] && b[3] == (hi + rest)[1]);
}

pub proof fn lemma_le64_round_trip(v: int, rest: Seq<u8>)
    requires
        0 <= v < 0x1_0000_0000_0000_0000,
    ensures
        le64_at(le64_bytes(v) + rest, 0) == v,
        le32_at(le64_bytes(v) + rest, 0) == v % 0x1_0000_0000,
        (le64_bytes(v) + rest).len() == 8 + rest.len(),
{
    let lo = le32_bytes(v % 4294967296);
    let hi = le32_bytes(v / 4294967296);
    lemma_le32_round_trip(v % 4294967296, hi + rest);
    lemma_le32_round_trip(v / 4294967296, rest);
    let b = le64_bytes(v) + rest;
    assert(b =~= lo + (hi + rest));
    let h = hi + rest;
    assert(b[4] == h[0] && b[5] == h[1] && b[6] == h[2] && b[7] == h[3]);
}

/// Reads the little-endian `u16` at `b[i..i + 2]`.
pub fn read_le16(b: &[u8], i: usize) -> (r: u16)
    requires
        i + 2 <= b@.len(),
    ensures
        r as int == le16_at(b@, i as int),
{
    b[i] as u16 + 256 * (b[i + 1] as u16)
}

/// Reads the little-endian `u32` at `b[i..i + 4]`.
pub fn read_le32(b: &[u8], i: usize) -> (r: u32)
    requires
        i + 4 <= b@.len(),
    ensures
        r as int == le32_at(b@, i as int),
{
    let _n = b.len();
    read_le16(b, i) as u32 + 65536 * (read_le16(b, i + 2) as u32)
}

/// Reads the little-endian `u64` at `b[i..i + 8]`.
pub fn read_le64(b: &[u8], i: usize) -> (r: u64)
    requires
        i + 8 <= b@.len(),
    ensures
        r as int == le64_at(b@, i as int),
{
    let _n = b.len();
    read_le32(b, i) as u64 + 4294967296 * (read_le32(b, i + 4) as u64)
}

} // verus!
