//! The hasher that keeps what a native type identifier writes.

use vstd::prelude::*;

verus! {

/// The word that a run of bytes spells, the first byte lowest.
pub open spec fn word_of(bytes: Seq<u8>) -> u64
    decreases bytes.len(),
{
    if bytes.len() == 0 {
        0
    } else {
        (word_of(bytes.drop_first()) << 8) | (bytes[0] as u64)
    }
}

/// A hasher that does not mix: its digest is the last word written to it.
/// A native type identifier is a hash already.
pub struct TypeIdHasher(u64);

impl TypeIdHasher {
    /// The word held.
    pub closed spec fn state(&self) -> u64 {
        self.0
    }

    /// A hasher that holds 0.
    pub fn new() -> (hasher: TypeIdHasher)
        ensures
            hasher.state() == 0,
    {
        TypeIdHasher(0)
    }

    /// Replaces the word held by `word`.
    pub fn put_word(&mut self, word: u64)
        ensures
            final(self).state() == word,
    {
        self.0 = word;
    }

    /// Replaces the word held by the one that `bytes` spell, the first
    /// byte lowest.
    pub fn put_bytes(&mut self, bytes: &[u8])
        ensures
            final(self).state() == word_of(bytes@),
    {
        let mut word: u64 = 0;
        let mut i: usize = bytes.len();
        assert(bytes@.subrange(i as int, bytes@.len() as int) =~= Seq::<u8>::empty());
        while i > 0
            invariant
                i <= bytes@.len(),
                word == word_of(bytes@.subrange(i as int, bytes@.len() as int)),
            decreases i,
        {
            i = i - 1;
            let ghost rest = bytes@.subrange(i as int, bytes@.len() as int);
            assert(rest.drop_first() =~= bytes@.subrange(i + 1, bytes@.len() as int));
            word = (word << 8) | (bytes[i] as u64);
        }
        assert(bytes@.subrange(0, bytes@.len() as int) =~= bytes@);
        self.0 = word;
    }

    /// The word held.
    pub fn digest(&self) -> (word: u64)
        ensures
            word == self.state(),
    {
        self.0
    }
}

impl core::hash::Hasher for TypeIdHasher {
    /// Holds the word that `bytes` spell, the first byte lowest.
    fn write(&mut self, bytes: &[u8])
        ensures
            final(self).state() == word_of(bytes@),
    {
        self.put_bytes(bytes);
    }

    /// Holds `word`.
    fn write_u64(&mut self, word: u64)
        ensures
            final(self).state() == word,
    {
        self.put_word(word);
    }

    /// The word held.
    fn finish(&self) -> (word: u64)
        ensures
            word == self.state(),
    {
        self.digest()
    }
}

} // verus!
