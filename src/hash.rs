//! The name hash: a djb2 variant that skips zero bytes and folds bytes from
//! `a` upward by 0x20, so that an ASCII name and its UTF-16LE form hash alike.
use vstd::prelude::*;

verus! {

/// Starting value of the hash.
pub const HASH_SEED: u32 = 5381;

/// The byte as it enters the hash.
pub open spec fn fold_byte(c: u8) -> u32 {
    if c >= 0x61 {
        (c - 0x20) as u32
    } else {
        c as u32
    }
}

/// One step of the hash: multiply by 33, add the folded byte, modulo 2^32.
pub open spec fn hash_step(h: u32, c: u8) -> u32 {
    ((h as int * 33 + fold_byte(c) as int) % 0x1_0000_0000) as u32
}

/// The hash of a byte sequence.
pub open spec fn name_hash(s: Seq<u8>) -> u32
    decreases s.len(),
{
    if s.len() == 0 {
        HASH_SEED
    } else if s.last() == 0 {
        name_hash(s.drop_last())
    } else {
        hash_step(name_hash(s.drop_last()), s.last())
    }
}

/// Hashes the bytes of a name.
pub fn dbj2_hash(buffer: &[u8]) -> (r: u32)
    ensures
        r == name_hash(buffer@),
{
    let mut h: u32 = HASH_SEED;
    let mut i: usize = 0;
    while i < buffer.len()
        invariant
            i <= buffer@.len(),
            h == name_hash(buffer@.subrange(0, i as int)),
        decreases buffer@.len() - i,
    {
        let c: u8 = buffer[i];
        proof {
            let next = buffer@.subrange(0, i as int + 1);
            assert(next.drop_last() =~= buffer@.subrange(0, i as int));
            assert(next.last() == c);
        }
        if c != 0 {
            let folded: u64 = if c >= 0x61 { (c - 0x20) as u64 } else { c as u64 };
            h = ((h as u64 * 33 + folded) % 0x1_0000_0000) as u32;
        }
        i = i + 1;
    }
    assert(buffer@.subrange(0, i as int) =~= buffer@);
    h
}

/// The hash is a function of the bytes alone: equal names always hash alike.
pub proof fn lemma_hash_deterministic(a: Seq<u8>, b: Seq<u8>)
    requires
        a == b,
    ensures
        name_hash(a) == name_hash(b),
{
}

} // verus!
