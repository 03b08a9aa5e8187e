//! Skipjack: a 64-bit block cipher under an 80-bit key, built as an
//! unbalanced Feistel network of 32 keyed rounds. The library exposes
//! exactly two operations, [`encrypt_block`] and [`decrypt_block`], and
//! proves that they are exact inverses for every block and every key.
//!
//! Skipjack is obsolete for production security use; the crate's purpose
//! is a faithful, auditable realization of the published round structure.
use vstd::prelude::*;

mod feistel;
mod ftable;
mod pack;
mod rounds;

pub use feistel::g_inv_spec;
pub use feistel::g_spec;
pub use feistel::key_byte;
pub use feistel::lemma_g_invertible;
pub use feistel::rule_g;
pub use feistel::rule_g_inv;
pub use ftable::f_entry;
pub use ftable::f_inv_spec;
pub use ftable::f_spec;
pub use ftable::lemma_f_bijective;
pub use pack::block_of_words;
pub use pack::block_to_words;
pub use pack::block_words;
pub use pack::bytes_to_word;
pub use pack::lemma_block_words_roundtrip;
pub use pack::lemma_bytes_word_roundtrip;
pub use pack::lemma_word_bytes_roundtrip;
pub use pack::lemma_words_block_roundtrip;
pub use pack::word_hi;
pub use pack::word_lo;
pub use pack::word_of_bytes;
pub use pack::word_to_bytes;
pub use pack::words_to_block;
pub use rounds::lemma_rule_a_invertible;
pub use rounds::lemma_rule_b_invertible;
pub use rounds::rule_a;
pub use rounds::rule_a_inv;
pub use rounds::rule_a_inv_spec;
pub use rounds::rule_a_spec;
pub use rounds::rule_b;
pub use rounds::rule_b_inv;
pub use rounds::rule_b_inv_spec;
pub use rounds::rule_b_spec;

verus! {

/// Whether the round at this counter uses rule A (otherwise rule B).
/// The forward schedule is A x8, B x8, A x8, B x8 over counters 1..=32.
pub open spec fn is_rule_a_round(counter: u16) -> bool {
    1 <= counter <= 8 || 17 <= counter <= 24
}

/// The forward round taken at this counter.
pub open spec fn round_spec(s: Seq<u16>, counter: u16, key: Seq<u8>) -> Seq<u16>
    recommends
        s.len() == 4,
        1 <= counter <= 32,
        key.len() == 10,
{
    if is_rule_a_round(counter) {
        rule_a_spec(s, counter, key)
    } else {
        rule_b_spec(s, counter, key)
    }
}

/// The inverse of the round taken at this counter.
pub open spec fn round_inv_spec(s: Seq<u16>, counter: u16, key: Seq<u8>) -> Seq<u16>
    recommends
        s.len() == 4,
        1 <= counter <= 32,
        key.len() == 10,
{
    if is_rule_a_round(counter) {
        rule_a_inv_spec(s, counter, key)
    } else {
        rule_b_inv_spec(s, counter, key)
    }
}

/// The state after the forward rounds at counters `counter`, ..., 32.
pub open spec fn encrypt_rounds(s: Seq<u16>, key: Seq<u8>, counter: int) -> Seq<u16>
    recommends
        s.len() == 4,
        key.len() == 10,
        1 <= counter <= 33,
    decreases 33 - counter,
{
    if counter < 1 || counter > 32 {
        s
    } else {
        encrypt_rounds(round_spec(s, counter as u16, key), key, counter + 1)
    }
}

/// The state after the inverse rounds at counters `counter`, ..., 1.
pub open spec fn decrypt_rounds(s: Seq<u16>, key: Seq<u8>, counter: int) -> Seq<u16>
    recommends
        s.len() == 4,
        key.len() == 10,
        0 <= counter <= 32,
    decreases counter,
{
    if counter < 1 || counter > 32 {
        s
    } else {
        decrypt_rounds(round_inv_spec(s, counter as u16, key), key, counter - 1)
    }
}

/// Encryption of one block: unpack, 32 forward rounds from counter 1, repack.
pub open spec fn encrypt_spec(block: u64, key: Seq<u8>) -> u64
    recommends
        key.len() == 10,
{
    block_of_words(encrypt_rounds(block_words(block), key, 1))
}

/// Decryption of one block: unpack, 32 inverse rounds from counter 32, repack.
pub open spec fn decrypt_spec(block: u64, key: Seq<u8>) -> u64
    recommends
        key.len() == 10,
{
    block_of_words(decrypt_rounds(block_words(block), key, 32))
}

/// Every round keeps the state at four words.
proof fn lemma_encrypt_rounds_len(s: Seq<u16>, key: Seq<u8>, counter: int)
    requires
        s.len() == 4,
    ensures
        encrypt_rounds(s, key, counter).len() == 4,
    decreases 33 - counter,
{
    if 1 <= counter <= 32 {
        lemma_encrypt_rounds_len(round_spec(s, counter as u16, key), key, counter + 1);
    }
}

/// Undoing the rounds at counters 32 down to `counter` leaves exactly the
/// rounds below `counter` still to undo.
proof fn lemma_rounds_invert(s: Seq<u16>, key: Seq<u8>, counter: int)
    requires
        s.len() == 4,
        key.len() == 10,
        1 <= counter <= 33,
    ensures
        decrypt_rounds(encrypt_rounds(s, key, counter), key, 32) == decrypt_rounds(
            s,
            key,
            counter - 1,
        ),
    decreases 33 - counter,
{
    if counter <= 32 {
        let stepped = round_spec(s, counter as u16, key);
        lemma_rounds_invert(stepped, key, counter + 1);
        if is_rule_a_round(counter as u16) {
            lemma_rule_a_invertible(s, counter as u16, key);
        } else {
            lemma_rule_b_invertible(s, counter as u16, key);
        }
    }
}

/// Decrypting an encrypted block with the same key restores the block,
/// for every 64-bit block and every 10-byte key.
pub proof fn lemma_encrypt_decrypt_roundtrip(block: u64, key: Seq<u8>)
    requires
        key.len() == 10,
    ensures
        decrypt_spec(encrypt_spec(block, key), key) == block,
{
    let s = block_words(block);
    let t = encrypt_rounds(s, key, 1);
    lemma_encrypt_rounds_len(s, key, 1);
    lemma_words_block_roundtrip(t);
    lemma_rounds_invert(s, key, 1);
    lemma_block_words_roundtrip(block);
}

/// Encrypts the given 64-bit block with the given 80-bit secret key.
///
/// The key's length is fixed by its type, so no runtime length check is
/// needed, and the operation is total: every block and key are valid.
pub fn encrypt_block(block: u64, key: [u8; 10]) -> (r: u64)
    ensures
        r == encrypt_spec(block, key@),
{
    let mut words = block_to_words(block);
    let mut counter: u16 = 1;
    while counter <= 32
        invariant
            1 <= counter <= 33,
            encrypt_rounds(block_words(block), key@, 1) == encrypt_rounds(
                words@,
                key@,
                counter as int,
            ),
        decreases 33 - counter,
    {
        if counter <= 8 || (17 <= counter && counter <= 24) {
            rule_a(&mut words, &mut counter, &key);
        } else {
            rule_b(&mut words, &mut counter, &key);
        }
    }
    words_to_block(words)
}

/// Decrypts the given 64-bit block with the given 80-bit secret key.
///
/// Runs the 32 rounds in reverse: the inverse rules, from counter 32
/// down to 1.
pub fn decrypt_block(block: u64, key: [u8; 10]) -> (r: u64)
    ensures
        r == decrypt_spec(block, key@),
{
    let mut words = block_to_words(block);
    let mut counter: u16 = 32;
    while counter >= 1
        invariant
            0 <= counter <= 32,
            decrypt_rounds(block_words(block), key@, 32) == decrypt_rounds(
                words@,
                key@,
                counter as int,
            ),
        decreases counter,
    {
        if counter <= 8 || (17 <= counter && counter <= 24) {
            rule_a_inv(&mut words, &mut counter, &key);
        } else {
            rule_b_inv(&mut words, &mut counter, &key);
        }
    }
    words_to_block(words)
}

} // verus!
