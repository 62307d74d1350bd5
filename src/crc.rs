//! The CRC-32C (Castagnoli) checksum that guards each command.
//!
//! The kernel computes it over the command with a seed of zero and without a
//! final inversion, bit by bit with the reflected polynomial `0x82F63B78`.

use vstd::prelude::*;

verus! {

/// One bit step of the reflected CRC-32C register.
pub open spec fn crc_shift(c: u32) -> u32 {
    if c & 1 == 1 {
        (c >> 1u32) ^ 0x82F6_3B78u32
    } else {
        c >> 1u32
    }
}

/// `n` bit steps of the register.
pub open spec fn crc_shifts(c: u32, n: nat) -> u32
    decreases n,
{
    if n == 0 {
        c
    } else {
        crc_shift(crc_shifts(c, (n - 1) as nat))
    }
}

/// The register after feeding one byte.
pub open spec fn crc_step(c: u32, b: u8) -> u32 {
    crc_shifts(c ^ (b as u32), 8)
}

/// The register after feeding the bytes of `s` in order, starting from `c`.
pub open spec fn crc_fold(c: u32, s: Seq<u8>) -> u32
    decreases s.len(),
{
    if s.len() == 0 {
        c
    } else {
        crc_step(crc_fold(c, s.drop_last()), s.last())
    }
}

/// The checksum of `s` as the send-stream format defines it.
pub open spec fn crc32c_of(s: Seq<u8>) -> u32 {
    crc_fold(0, s)
}

/// Feeding `a + b` is feeding `a`, then `b`.
pub proof fn lemma_crc_fold_concat(c: u32, a: Seq<u8>, b: Seq<u8>)
    ensures
        crc_fold(c, a + b) == crc_fold(crc_fold(c, a), b),
    decreases b.len(),
{
    if b.len() == 0 {
        assert(a + b =~= a);
    } else {
        lemma_crc_fold_concat(c, a, b.drop_last());
        assert((a + b).drop_last() =~= a + b.drop_last());
        assert((a + b).last() == b.last());
    }
}

fn crc_step_exec(c: u32, b: u8) -> (r: u32)
    ensures
        r == crc_step(c, b),
{
    let start = c ^ (b as u32);
    let mut x = start;
    let mut k: u32 = 0;
    while k < 8
        invariant
            k <= 8,
            x == crc_shifts(start, k as nat),
        decreases 8 - k,
    {
        x = if x & 1 == 1 {
            (x >> 1u32) ^ 0x82F6_3B78u32
        } else {
            x >> 1u32
        };
        k = k + 1;
    }
    x
}

/// Continues a checksum whose register holds `c` over the bytes of `data`.
pub fn crc32c_append(c: u32, data: &[u8]) -> (r: u32)
    ensures
        r == crc_fold(c, data@),
{
    let mut acc = c;
    let mut i: usize = 0;
    while i < data.len()
        invariant
            i <= data@.len(),
            acc == crc_fold(c, data@.subrange(0, i as int)),
        decreases data@.len() - i,
    {
        let ghost before = data@.subrange(0, i as int);
        acc = crc_step_exec(acc, data[i]);
        i = i + 1;
        proof {
            let now = data@.subrange(0, i as int);
            assert(now.drop_last() =~= before);
            assert(now.last() == data@[i - 1]);
        }
    }
    assert(data@.subrange(0, data@.len() as int) =~= data@);
    acc
}

/// The send-stream checksum of `data`.
pub fn crc32c(data: &[u8]) -> (r: u32)
    ensures
        r == crc32c_of(data@),
{
    crc32c_append(0, data)
}

} // verus!
