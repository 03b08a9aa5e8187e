use vstd::prelude::*;

use crate::feistel::g_inv_spec;
use crate::feistel::g_spec;
use crate::feistel::lemma_g_invertible;
use crate::feistel::rule_g;
use crate::feistel::rule_g_inv;

verus! {

/// Rule A: one forward round, driven by the 1-based round counter. The
/// step handed to rule G is the counter minus one.
pub open spec fn rule_a_spec(s: Seq<u16>, counter: u16, key: Seq<u8>) -> Seq<u16>
    recommends
        s.len() == 4,
        1 <= counter <= 32,
        key.len() == 10,
{
    let g = g_spec(s[0], (counter - 1) as u16, key);
    seq![g ^ s[3] ^ counter, g, s[1], s[2]]
}

/// Rule B: one forward round, driven by the 1-based round counter.
pub open spec fn rule_b_spec(s: Seq<u16>, counter: u16, key: Seq<u8>) -> Seq<u16>
    recommends
        s.len() == 4,
        1 <= counter <= 32,
        key.len() == 10,
{
    let g = g_spec(s[0], (counter - 1) as u16, key);
    seq![s[3], g, s[0] ^ s[1] ^ counter, s[2]]
}

/// Rule A': undoes one rule A round taken at the same counter.
pub open spec fn rule_a_inv_spec(s: Seq<u16>, counter: u16, key: Seq<u8>) -> Seq<u16>
    recommends
        s.len() == 4,
        1 <= counter <= 32,
        key.len() == 10,
{
    let gi = g_inv_spec(s[1], (counter - 1) as u16, key);
    seq![gi, s[2], s[3], s[0] ^ s[1] ^ counter]
}

/// Rule B': undoes one rule B round taken at the same counter.
pub open spec fn rule_b_inv_spec(s: Seq<u16>, counter: u16, key: Seq<u8>) -> Seq<u16>
    recommends
        s.len() == 4,
        1 <= counter <= 32,
        key.len() == 10,
{
    let gi = g_inv_spec(s[1], (counter - 1) as u16, key);
    seq![gi, gi ^ s[2] ^ counter, s[3], s[0]]
}

/// Applying rule A and then rule A' with the same counter restores the
/// original 4-word state.
pub proof fn lemma_rule_a_invertible(s: Seq<u16>, counter: u16, key: Seq<u8>)
    requires
        s.len() == 4,
        1 <= counter <= 32,
        key.len() == 10,
    ensures
        rule_a_inv_spec(rule_a_spec(s, counter, key), counter, key) == s,
{
    let g = g_spec(s[0], (counter - 1) as u16, key);
    lemma_g_invertible(s[0], (counter - 1) as u16, key);
    let w3 = s[3];
    assert((g ^ w3 ^ counter) ^ g ^ counter == w3) by (bit_vector);
    assert(rule_a_inv_spec(rule_a_spec(s, counter, key), counter, key) =~= s);
}

/// Applying rule B and then rule B' with the same counter restores the
/// original 4-word state.
pub proof fn lemma_rule_b_invertible(s: Seq<u16>, counter: u16, key: Seq<u8>)
    requires
        s.len() == 4,
        1 <= counter <= 32,
        key.len() == 10,
    ensures
        rule_b_inv_spec(rule_b_spec(s, counter, key), counter, key) == s,
{
    let g = g_spec(s[0], (counter - 1) as u16, key);
    lemma_g_invertible(s[0], (counter - 1) as u16, key);
    let w0 = s[0];
    let w1 = s[1];
    assert(w0 ^ (w0 ^ w1 ^ counter) ^ counter == w1) by (bit_vector);
    assert(rule_b_inv_spec(rule_b_spec(s, counter, key), counter, key) =~= s);
}

/// Advances the state by one rule A round and increments the counter.
/// All four new words are computed from a snapshot of the old state.
pub fn rule_a(words: &mut [u16; 4], counter: &mut u16, key: &[u8; 10])
    requires
        1 <= *old(counter) <= 32,
    ensures
        final(words)@ == rule_a_spec(old(words)@, *old(counter), key@),
        *final(counter) == *old(counter) + 1,
{
    let g = rule_g(words[0], *counter - 1, key);
    let next = [g ^ words[3] ^ *counter, g, words[1], words[2]];
    proof {
        assert(next@ =~= rule_a_spec(words@, *counter, key@));
    }
    *words = next;
    *counter = *counter + 1;
}

/// Advances the state by one rule B round and increments the counter.
pub fn rule_b(words: &mut [u16; 4], counter: &mut u16, key: &[u8; 10])
    requires
        1 <= *old(counter) <= 32,
    ensures
        final(words)@ == rule_b_spec(old(words)@, *old(counter), key@),
        *final(counter) == *old(counter) + 1,
{
    let g = rule_g(words[0], *counter - 1, key);
    let next = [words[3], g, words[0] ^ words[1] ^ *counter, words[2]];
    proof {
        assert(next@ =~= rule_b_spec(words@, *counter, key@));
    }
    *words = next;
    *counter = *counter + 1;
}

/// Takes the state back by one rule A round and decrements the counter.
pub fn rule_a_inv(words: &mut [u16; 4], counter: &mut u16, key: &[u8; 10])
    requires
        1 <= *old(counter) <= 32,
    ensures
        final(words)@ == rule_a_inv_spec(old(words)@, *old(counter), key@),
        *final(counter) == *old(counter) - 1,
{
    let gi = rule_g_inv(words[1], *counter - 1, key);
    let next = [gi, words[2], words[3], words[0] ^ words[1] ^ *counter];
    proof {
        assert(next@ =~= rule_a_inv_spec(words@, *counter, key@));
    }
    *words = next;
    *counter = *counter - 1;
}

/// Takes the state back by one rule B round and decrements the counter.
pub fn rule_b_inv(words: &mut [u16; 4], counter: &mut u16, key: &[u8; 10])
    requires
        1 <= *old(counter) <= 32,
    ensures
        final(words)@ == rule_b_inv_spec(old(words)@, *old(counter), key@),
        *final(counter) == *old(counter) - 1,
{
    let gi = rule_g_inv(words[1], *counter - 1, key);
    let next = [gi, gi ^ words[2] ^ *counter, words[3], words[0]];
    proof {
        assert(next@ =~= rule_b_inv_spec(words@, *counter, key@));
    }
    *words = next;
    *counter = *counter - 1;
}

} // verus!
