use vstd::prelude::*;

verus! {

/// A 256-bit block or transaction hash, held as four little-endian 64-bit words.
#[derive(Clone, Copy, Debug, PartialEq, Eq, Structural, Hash)]
pub struct Digest {
    pub w0: u64,
    pub w1: u64,
    pub w2: u64,
    pub w3: u64,
}

/// Transactions are identified by the hash of their contents.
pub type TransactionId = Digest;

impl Digest {
    /// The hash whose first word is `word` and whose other words are zero.
    pub fn from_u64_word(word: u64) -> (r: Digest)
        ensures
            r == (Digest { w0: word, w1: 0, w2: 0, w3: 0 }),
    {
        Digest { w0: word, w1: 0, w2: 0, w3: 0 }
    }

}

} // verus!
