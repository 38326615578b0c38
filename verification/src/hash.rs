//! Content addressing of opaque credential blobs: a deterministic,
//! fixed-width commitment computed from the bytes alone, used for audit and
//! equality checks, never for authorization by itself.

use vstd::prelude::*;

verus! {

/// Multiplier of the rolling accumulator.
pub const HASH_MULTIPLIER: u64 = 31;

/// Start value of the accumulator, so that the commitment of the empty blob
/// is itself a defined, non-zero value.
pub const HASH_BASIS: u64 = 2166136261;

/// The accumulator is reduced modulo this bound after every byte, so it
/// always fits 32 bits.
pub const HASH_MODULUS: u64 = 4294967296;

/// Width in bytes of every commitment.
pub const HASH_WIDTH: usize = 4;

/// One step of the accumulator: fold the next byte in and reduce.
pub open spec fn hash_step(h: u64, b: u8) -> u64 {
    (((h as int) * (HASH_MULTIPLIER as int) + (b as int)) % (HASH_MODULUS as int)) as u64
}

/// Accumulator after the first `n` bytes of the blob.
pub open spec fn hash_prefix(s: Seq<u8>, n: int) -> u64
    decreases n,
{
    if n <= 0 {
        HASH_BASIS
    } else {
        hash_step(hash_prefix(s, n - 1), s[n - 1])
    }
}

/// Accumulator over the whole blob.
pub open spec fn hash_value(s: Seq<u8>) -> u64 {
    hash_prefix(s, s.len() as int)
}

/// The commitment of a blob: the little-endian bytes of the accumulator.
pub open spec fn hash_bytes(s: Seq<u8>) -> Seq<u8> {
    let h = hash_value(s);
    seq![
        (h % 256) as u8,
        ((h / 256) % 256) as u8,
        ((h / 65536) % 256) as u8,
        ((h / 16777216) % 256) as u8,
    ]
}

proof fn lemma_hash_prefix_in_range(s: Seq<u8>, n: int)
    ensures
        hash_prefix(s, n) < HASH_MODULUS,
    decreases n,
{
    if n > 0 {
        lemma_hash_prefix_in_range(s, n - 1);
    }
}

/// Commit a blob to its fixed-width content address. Pure: the result is a
/// function of the bytes alone, and every input, the empty blob included,
/// has a defined commitment.
pub fn commit(blob: &Vec<u8>) -> (r: Vec<u8>)
    ensures
        r@ == hash_bytes(blob@),
        r@.len() == HASH_WIDTH,
{
    let mut h: u64 = HASH_BASIS;
    let mut i: usize = 0;
    while i < blob.len()
        invariant
            i <= blob.len(),
            h == hash_prefix(blob@, i as int),
            h < HASH_MODULUS,
        decreases blob.len() - i,
    {
        proof {
            lemma_hash_prefix_in_range(blob@, i as int + 1);
        }
        h = (h * HASH_MULTIPLIER + blob[i] as u64) % HASH_MODULUS;
        i = i + 1;
    }
    let mut r: Vec<u8> = Vec::new();
    r.push((h % 256) as u8);
    r.push(((h / 256) % 256) as u8);
    r.push(((h / 65536) % 256) as u8);
    r.push(((h / 16777216) % 256) as u8);
    proof {
        assert(r@ =~= hash_bytes(blob@));
    }
    r
}

/// Commitments are deterministic: equal blobs always commit to equal values.
pub proof fn lemma_commit_deterministic(b1: Seq<u8>, b2: Seq<u8>)
    requires
        b1 == b2,
    ensures
        hash_bytes(b1) == hash_bytes(b2),
{
}

} // verus!
