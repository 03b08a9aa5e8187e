use vstd::prelude::*;

verus! {

/// The high byte of a 16-bit word.
pub open spec fn word_hi(w: u16) -> u8 {
    (w >> 8) as u8
}

/// The low byte of a 16-bit word.
pub open spec fn word_lo(w: u16) -> u8 {
    w as u8
}

/// The 16-bit word with high byte `hi` and low byte `lo`.
pub open spec fn word_of_bytes(hi: u8, lo: u8) -> u16 {
    ((hi as u16) << 8) | (lo as u16)
}

/// The four 16-bit words of a 64-bit block, most significant first.
pub open spec fn block_words(b: u64) -> Seq<u16> {
    seq![(b >> 48) as u16, (b >> 32) as u16, (b >> 16) as u16, b as u16]
}

/// The 64-bit block assembled from four 16-bit words, most significant first.
pub open spec fn block_of_words(s: Seq<u16>) -> u64
    recommends
        s.len() == 4,
{
    ((s[0] as u64) << 48) | ((s[1] as u64) << 32) | ((s[2] as u64) << 16) | (s[3] as u64)
}

/// Splits a 64-bit block into four 16-bit words, high word first.
pub fn block_to_words(block: u64) -> (words: [u16; 4])
    ensures
        words@ == block_words(block),
{
    let w1: u16 = (block >> 48) as u16;
    let w2: u16 = (block >> 32) as u16;
    let w3: u16 = (block >> 16) as u16;
    let w4: u16 = block as u16;
    let words = [w1, w2, w3, w4];
    proof {
        assert(words@ =~= block_words(block));
    }
    words
}

/// Merges four 16-bit words into a single 64-bit block, high word first.
pub fn words_to_block(words: [u16; 4]) -> (block: u64)
    ensures
        block == block_of_words(words@),
{
    let mut block: u64 = (words[0] as u64) << 48;
    block = block | (words[1] as u64) << 32;
    block = block | (words[2] as u64) << 16;
    block = block | words[3] as u64;
    block
}

/// Splits a 16-bit word into its two bytes, high byte first.
pub fn word_to_bytes(word: u16) -> (bytes: [u8; 2])
    ensures
        bytes@ == seq![word_hi(word), word_lo(word)],
{
    let bytes = [(word >> 8) as u8, word as u8];
    proof {
        assert(bytes@ =~= seq![word_hi(word), word_lo(word)]);
    }
    bytes
}

/// Merges two bytes into a single 16-bit word, high byte first.
pub fn bytes_to_word(bytes: [u8; 2]) -> (word: u16)
    ensures
        word == word_of_bytes(bytes@[0], bytes@[1]),
{
    (bytes[0] as u16) << 8 | bytes[1] as u16
}

/// Splitting a block into words and merging them back is the identity.
pub proof fn lemma_block_words_roundtrip(b: u64)
    ensures
        block_of_words(block_words(b)) == b,
{
    assert((((b >> 48) as u16 as u64) << 48) | (((b >> 32) as u16 as u64) << 32)
        | (((b >> 16) as u16 as u64) << 16) | (b as u16 as u64) == b) by (bit_vector);
}

/// Merging four words into a block and splitting it again is the identity.
pub proof fn lemma_words_block_roundtrip(s: Seq<u16>)
    requires
        s.len() == 4,
    ensures
        block_words(block_of_words(s)) == s,
{
    let w0 = s[0];
    let w1 = s[1];
    let w2 = s[2];
    let w3 = s[3];
    let b = block_of_words(s);
    assert(b == ((w0 as u64) << 48) | ((w1 as u64) << 32) | ((w2 as u64) << 16) | (w3 as u64));
    assert({
        let b2 = ((w0 as u64) << 48) | ((w1 as u64) << 32) | ((w2 as u64) << 16) | (w3 as u64);
        (b2 >> 48) as u16 == w0 && (b2 >> 32) as u16 == w1 && (b2 >> 16) as u16 == w2
            && b2 as u16 == w3
    }) by (bit_vector);
    assert(block_words(b) =~= s);
}

/// Splitting a word into bytes and merging them back is the identity.
pub proof fn lemma_word_bytes_roundtrip(w: u16)
    ensures
        word_of_bytes(word_hi(w), word_lo(w)) == w,
{
    assert((((w >> 8) as u8 as u16) << 8) | (w as u8 as u16) == w) by (bit_vector);
}

/// Merging two bytes into a word and splitting it again is the identity.
pub proof fn lemma_bytes_word_roundtrip(hi: u8, lo: u8)
    ensures
        word_hi(word_of_bytes(hi, lo)) == hi,
        word_lo(word_of_bytes(hi, lo)) == lo,
{
    assert(((((hi as u16) << 8) | (lo as u16)) >> 8) as u8 == hi && (((hi as u16) << 8) | (
    lo as u16)) as u8 == lo) by (bit_vector);
}

} // verus!
