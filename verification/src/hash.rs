//! The numeric identifier generator.
//!
//! A check identifier is derived from a string by a rolling multiplicative
//! hash over the string's UTF-8 bytes, seeded with a fixed constant: the
//! classic djb2 hash. The function is pure and total, so two independently
//! built programs compute matching identifiers for the same logical function
//! without coordinating at run time. No uniqueness is promised, only
//! reproducibility.

use vstd::prelude::*;
use vstd::utf8::encode_utf8;

verus! {

/// The fixed seed of the rolling hash.
pub const DJB2_SEED: u32 = 5381;

/// One step of the rolling hash: multiply by 33 and add the next byte,
/// both modulo 2^32.
pub open spec fn djb2_step(h: u32, b: u8) -> u32 {
    h.wrapping_mul(33).wrapping_add(b as u32)
}

/// The rolling hash of `bytes` starting from the accumulator `h`.
pub open spec fn djb2_from(h: u32, bytes: Seq<u8>) -> u32
    decreases bytes.len(),
{
    if bytes.len() == 0 {
        h
    } else {
        djb2_from(djb2_step(h, bytes[0]), bytes.drop_first())
    }
}

/// The djb2 hash of a byte sequence, from the fixed seed.
pub open spec fn djb2(bytes: Seq<u8>) -> u32 {
    djb2_from(DJB2_SEED, bytes)
}

/// The check identifier derived from a string: the djb2 hash of its UTF-8
/// byte encoding. This is the single definition every contract about
/// derived identifiers refers to, which is what makes derivation
/// deterministic across runs and machines.
pub open spec fn spec_derive(s: Seq<char>) -> u32 {
    djb2(encode_utf8(s))
}

/// Derives the 32-bit check identifier of a string.
///
/// Same input, same output, on every run and every machine: the result is a
/// function of the string's characters alone.
pub fn djb2_hash(s: &str) -> (r: u32)
    ensures
        r == spec_derive(s@),
{
    let bytes: &[u8] = s.as_bytes();
    let mut h: u32 = DJB2_SEED;
    let mut i: usize = 0;
    proof {
        assert(bytes@.skip(0) =~= bytes@);
    }
    while i < bytes.len()
        invariant
            i <= bytes@.len(),
            djb2_from(h, bytes@.skip(i as int)) == djb2(bytes@),
        decreases bytes@.len() - i,
    {
        proof {
            assert(bytes@.skip(i as int)[0] == bytes@[i as int]);
            assert(bytes@.skip(i as int).drop_first() =~= bytes@.skip(i as int + 1));
        }
        h = h.wrapping_mul(33).wrapping_add(bytes[i] as u32);
        i = i + 1;
    }
    proof {
        assert(bytes@.skip(i as int) =~= Seq::<u8>::empty());
    }
    h
}

} // verus!
