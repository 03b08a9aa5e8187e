use skipjack::decrypt_block;
use skipjack::encrypt_block;

#[test]
fn test_encrypt_block() {
    let plaintext: u64 = 0x33221100ddccbbaa;
    let key: [u8; 10] = [0x00, 0x99, 0x88, 0x77, 0x66, 0x55, 0x44, 0x33, 0x22, 0x11];

    let ciphertext = encrypt_block(plaintext, key);

    // For a known plaintext and key, we get the expected ciphertext.
    assert_eq!(ciphertext, 0x2587cae27a12d300);
}

#[test]
fn test_decrypt_block() {
    let plaintext: u64 = 0x33221100ddccbbaa;
    let key: [u8; 10] = [0x00, 0x99, 0x88, 0x77, 0x66, 0x55, 0x44, 0x33, 0x22, 0x11];

    let ciphertext = encrypt_block(plaintext, key);

    // For a known ciphertext and key, we get the expected plaintext.
    assert_eq!(decrypt_block(ciphertext, key), plaintext);
}

#[test]
fn decrypt_known_ciphertext() {
    let key: [u8; 10] = [0x00, 0x99, 0x88, 0x77, 0x66, 0x55, 0x44, 0x33, 0x22, 0x11];

    // Decrypting the published ciphertext directly yields the plaintext.
    assert_eq!(decrypt_block(0x2587cae27a12d300, key), 0x33221100ddccbbaa);
}

#[test]
fn roundtrip_assorted_blocks_and_keys() {
    let keys: [[u8; 10]; 3] = [
        [0x00; 10],
        [0xff; 10],
        [0x12, 0x34, 0x56, 0x78, 0x9a, 0xbc, 0xde, 0xf0, 0x01, 0x23],
    ];
    let blocks: [u64; 5] = [
        0,
        1,
        u64::MAX,
        0x33221100ddccbbaa,
        0x0123456789abcdef,
    ];
    for key in keys.iter() {
        for block in blocks.iter() {
            assert_eq!(decrypt_block(encrypt_block(*block, *key), *key), *block);
        }
    }
}

#[test]
fn encrypt_changes_the_block() {
    // Not a cipher guarantee in general, but a cheap sanity check that the
    // rounds ran: the known-answer pair is not a fixed point.
    let key: [u8; 10] = [0x00, 0x99, 0x88, 0x77, 0x66, 0x55, 0x44, 0x33, 0x22, 0x11];
    assert_ne!(encrypt_block(0x33221100ddccbbaa, key), 0x33221100ddccbbaa);
}
