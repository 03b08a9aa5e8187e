use vstd::prelude::*;

use crate::ftable::f_entry;
use crate::ftable::f_spec;
use crate::pack::bytes_to_word;
use crate::pack::lemma_bytes_word_roundtrip;
use crate::pack::lemma_word_bytes_roundtrip;
use crate::pack::word_hi;
use crate::pack::word_lo;
use crate::pack::word_of_bytes;
use crate::pack::word_to_bytes;

verus! {

/// The key byte consumed by round `r` of rule G at the given step.
pub open spec fn key_byte(key: Seq<u8>, step: u16, r: int) -> u8
    recommends
        key.len() == 10,
        0 <= r < 4,
{
    key[(4 * (step as int) + r) % 10]
}

/// Rule G: a 4-round Feistel permutation of a single 16-bit word. Each
/// round folds one key byte and one F-table lookup into the byte chain
/// g1, g2, g3, g4, g5, g6; the result is the word (g5, g6).
pub open spec fn g_spec(w: u16, step: u16, key: Seq<u8>) -> u16
    recommends
        key.len() == 10,
{
    let g1 = word_hi(w);
    let g2 = word_lo(w);
    let g3 = f_spec(g2 ^ key_byte(key, step, 0)) ^ g1;
    let g4 = f_spec(g3 ^ key_byte(key, step, 1)) ^ g2;
    let g5 = f_spec(g4 ^ key_byte(key, step, 2)) ^ g3;
    let g6 = f_spec(g5 ^ key_byte(key, step, 3)) ^ g4;
    word_of_bytes(g5, g6)
}

/// Rule G': the same 4-round structure as rule G with the key bytes taken
/// in reverse round order, walking the chain back from (g5, g6) to (g1, g2).
pub open spec fn g_inv_spec(w: u16, step: u16, key: Seq<u8>) -> u16
    recommends
        key.len() == 10,
{
    let g5 = word_hi(w);
    let g6 = word_lo(w);
    let g4 = f_spec(g5 ^ key_byte(key, step, 3)) ^ g6;
    let g3 = f_spec(g4 ^ key_byte(key, step, 2)) ^ g5;
    let g2 = f_spec(g3 ^ key_byte(key, step, 1)) ^ g4;
    let g1 = f_spec(g2 ^ key_byte(key, step, 0)) ^ g3;
    word_of_bytes(g1, g2)
}

/// XOR by the same byte twice cancels.
proof fn lemma_xor_cancel(a: u8, b: u8)
    by (bit_vector)
    ensures
        a ^ (a ^ b) == b,
{
}

/// Rule G' undoes rule G for every word, every step in 0..32 and every
/// 10-byte key.
pub proof fn lemma_g_invertible(w: u16, step: u16, key: Seq<u8>)
    requires
        key.len() == 10,
        step < 32,
    ensures
        g_inv_spec(g_spec(w, step, key), step, key) == w,
{
    let g1 = word_hi(w);
    let g2 = word_lo(w);
    let g3 = f_spec(g2 ^ key_byte(key, step, 0)) ^ g1;
    let g4 = f_spec(g3 ^ key_byte(key, step, 1)) ^ g2;
    let g5 = f_spec(g4 ^ key_byte(key, step, 2)) ^ g3;
    let g6 = f_spec(g5 ^ key_byte(key, step, 3)) ^ g4;
    lemma_bytes_word_roundtrip(g5, g6);
    lemma_xor_cancel(f_spec(g5 ^ key_byte(key, step, 3)), g4);
    lemma_xor_cancel(f_spec(g4 ^ key_byte(key, step, 2)), g3);
    lemma_xor_cancel(f_spec(g3 ^ key_byte(key, step, 1)), g2);
    lemma_xor_cancel(f_spec(g2 ^ key_byte(key, step, 0)), g1);
    lemma_word_bytes_roundtrip(w);
}

/// Applies rule G to one word under the given step and key.
pub fn rule_g(word: u16, step: u16, key: &[u8; 10]) -> (r: u16)
    requires
        step < 32,
    ensures
        r == g_spec(word, step, key@),
{
    let bytes = word_to_bytes(word);
    let g1 = bytes[0];
    let g2 = bytes[1];
    let g3 = f_entry(g2 ^ key[((4 * step) % 10) as usize]) ^ g1;
    let g4 = f_entry(g3 ^ key[((4 * step + 1) % 10) as usize]) ^ g2;
    let g5 = f_entry(g4 ^ key[((4 * step + 2) % 10) as usize]) ^ g3;
    let g6 = f_entry(g5 ^ key[((4 * step + 3) % 10) as usize]) ^ g4;
    bytes_to_word([g5, g6])
}

/// Applies rule G' to one word under the given step and key.
pub fn rule_g_inv(word: u16, step: u16, key: &[u8; 10]) -> (r: u16)
    requires
        step < 32,
    ensures
        r == g_inv_spec(word, step, key@),
{
    let bytes = word_to_bytes(word);
    let g5 = bytes[0];
    let g6 = bytes[1];
    let g4 = f_entry(g5 ^ key[((4 * step + 3) % 10) as usize]) ^ g6;
    let g3 = f_entry(g4 ^ key[((4 * step + 2) % 10) as usize]) ^ g5;
    let g2 = f_entry(g3 ^ key[((4 * step + 1) % 10) as usize]) ^ g4;
    let g1 = f_entry(g2 ^ key[((4 * step) % 10) as usize]) ^ g3;
    bytes_to_word([g1, g2])
}

} // verus!
