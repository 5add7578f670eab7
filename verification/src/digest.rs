//! The fixed-size value that a finished hash computation produces.

use vstd::prelude::*;

verus! {

/// Number of bytes in a [`Digest`].
pub const DIGEST_BYTES: usize = 32;

/// Number of 32-bit words that hold a digest.
pub const DIGEST_WORDS: usize = 8;

/// A 32-byte hash value. Once produced it is never changed.
#[derive(Clone, Copy, Debug, PartialEq, Eq)]
pub struct Digest {
    pub bytes: [u8; DIGEST_BYTES],
}

impl View for Digest {
    type V = Seq<u8>;

    open spec fn view(&self) -> Seq<u8> {
        self.bytes@
    }
}

/// The thirty-two zero bytes of the zero digest.
pub open spec fn zero_bytes() -> Seq<u8> {
    Seq::new(DIGEST_BYTES as nat, |i: int| 0u8)
}

/// The 32-bit word whose little-endian bytes are `b0`, `b1`, `b2`, `b3`.
pub open spec fn le_word(b0: u8, b1: u8, b2: u8, b3: u8) -> int {
    b0 + 0x100 * b1 + 0x1_0000 * b2 + 0x100_0000 * b3
}

/// The eight words that thirty-two bytes form when every four of them are read
/// as one little-endian word, the way the zkVM lays words out in memory.
pub open spec fn words_of(bytes: Seq<u8>) -> Seq<u32> {
    Seq::new(
        DIGEST_WORDS as nat,
        |i: int| le_word(bytes[4 * i], bytes[4 * i + 1], bytes[4 * i + 2], bytes[4 * i + 3]) as u32,
    )
}

impl Digest {
    /// Wraps thirty-two bytes as a digest.
    pub fn from_bytes(bytes: [u8; DIGEST_BYTES]) -> (d: Digest)
        ensures
            d@ == bytes@,
    {
        Digest { bytes }
    }

    /// The bytes of the digest, in order.
    pub fn as_bytes(&self) -> (b: &[u8; DIGEST_BYTES])
        ensures
            b@ == self@,
    {
        &self.bytes
    }

    /// The digest as eight little-endian words.
    pub fn to_words(&self) -> (words: [u32; DIGEST_WORDS])
        ensures
            words@ == words_of(self@),
    {
        let mut words: [u32; DIGEST_WORDS] = [0u32; DIGEST_WORDS];
        let mut i: usize = 0;
        while i < DIGEST_WORDS
            invariant
                i <= DIGEST_WORDS,
                forall|k: int| 0 <= k < i ==> words@[k] == words_of(self@)[k],
            decreases DIGEST_WORDS - i,
        {
            let b0: u32 = self.bytes[4 * i] as u32;
            let b1: u32 = self.bytes[4 * i + 1] as u32;
            let b2: u32 = self.bytes[4 * i + 2] as u32;
            let b3: u32 = self.bytes[4 * i + 3] as u32;
            words[i] = b0 + 0x100 * b1 + 0x1_0000 * b2 + 0x100_0000 * b3;
            i = i + 1;
        }
        assert(words@ =~= words_of(self@));
        words
    }

    /// The digest of all zeroes, which stands for "nothing here".
    pub fn zero() -> (d: Digest)
        ensures
            d@ == zero_bytes(),
    {
        let d = Digest { bytes: [0u8; DIGEST_BYTES] };
        assert(d@ =~= zero_bytes());
        d
    }
}

} // verus!
