use skipjack::block_to_words;
use skipjack::bytes_to_word;
use skipjack::f_entry;
use skipjack::rule_a;
use skipjack::rule_a_inv;
use skipjack::rule_b;
use skipjack::rule_b_inv;
use skipjack::rule_g;
use skipjack::rule_g_inv;
use skipjack::word_to_bytes;
use skipjack::words_to_block;

#[test]
fn f_table_is_a_permutation() {
    // Every byte occurs exactly once among the 256 entries.
    let mut seen = [false; 256];
    for i in 0..=255u8 {
        let v = f_entry(i) as usize;
        assert!(!seen[v], "duplicate F entry at index {}", i);
        seen[v] = true;
    }
    assert!(seen.iter().all(|&s| s));
}

#[test]
fn f_table_known_entries() {
    assert_eq!(f_entry(0x00), 0xa3);
    assert_eq!(f_entry(0x01), 0xd7);
    assert_eq!(f_entry(0xff), 0x46);
}

#[test]
fn g_then_g_inverse_is_identity() {
    let key: [u8; 10] = [0x00, 0x99, 0x88, 0x77, 0x66, 0x55, 0x44, 0x33, 0x22, 0x11];
    for step in 0..32u16 {
        for &word in &[0x0000u16, 0x0001, 0xffff, 0xbbaa, 0x1234] {
            assert_eq!(rule_g_inv(rule_g(word, step, &key), step, &key), word);
        }
    }
}

#[test]
fn rule_a_then_inverse_restores_state() {
    let key: [u8; 10] = [0x12, 0x34, 0x56, 0x78, 0x9a, 0xbc, 0xde, 0xf0, 0x01, 0x23];
    for c in 1..=32u16 {
        let original: [u16; 4] = [0x3322, 0x1100, 0xddcc, 0xbbaa];
        let mut words = original;
        let mut counter = c;
        rule_a(&mut words, &mut counter, &key);
        assert_eq!(counter, c + 1);
        counter = c;
        rule_a_inv(&mut words, &mut counter, &key);
        assert_eq!(counter, c - 1);
        assert_eq!(words, original);
    }
}

#[test]
fn rule_b_then_inverse_restores_state() {
    let key: [u8; 10] = [0x12, 0x34, 0x56, 0x78, 0x9a, 0xbc, 0xde, 0xf0, 0x01, 0x23];
    for c in 1..=32u16 {
        let original: [u16; 4] = [0x0123, 0x4567, 0x89ab, 0xcdef];
        let mut words = original;
        let mut counter = c;
        rule_b(&mut words, &mut counter, &key);
        assert_eq!(counter, c + 1);
        counter = c;
        rule_b_inv(&mut words, &mut counter, &key);
        assert_eq!(counter, c - 1);
        assert_eq!(words, original);
    }
}

#[test]
fn block_packing_roundtrip() {
    assert_eq!(block_to_words(0x33221100ddccbbaa), [0x3322, 0x1100, 0xddcc, 0xbbaa]);
    assert_eq!(words_to_block([0x3322, 0x1100, 0xddcc, 0xbbaa]), 0x33221100ddccbbaa);
    for &b in &[0u64, 1, u64::MAX, 0x8000000000000001] {
        assert_eq!(words_to_block(block_to_words(b)), b);
    }
}

#[test]
fn word_packing_roundtrip() {
    assert_eq!(word_to_bytes(0xbbaa), [0xbb, 0xaa]);
    assert_eq!(bytes_to_word([0xbb, 0xaa]), 0xbbaa);
    for &w in &[0u16, 1, 0xffff, 0x8001] {
        assert_eq!(bytes_to_word(word_to_bytes(w)), w);
    }
    for &pair in &[[0u8, 0], [0xff, 0xff], [0x12, 0x34]] {
        assert_eq!(word_to_bytes(bytes_to_word(pair)), pair);
    }
}
