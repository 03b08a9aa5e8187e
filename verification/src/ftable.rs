use vstd::prelude::*;

verus! {

/// The Skipjack F table: a fixed substitution box, a bijection on bytes.
/// The entries are compatibility-critical constants; they are never
/// computed at runtime and never change.
pub const F: [u8; 256] = [
    0xa3, 0xd7, 0x09, 0x83, 0xf8, 0x48, 0xf6, 0xf4, 0xb3, 0x21, 0x15, 0x78, 0x99, 0xb1, 0xaf, 0xf9,
    0xe7, 0x2d, 0x4d, 0x8a, 0xce, 0x4c, 0xca, 0x2e, 0x52, 0x95, 0xd9, 0x1e, 0x4e, 0x38, 0x44, 0x28,
    0x0a, 0xdf, 0x02, 0xa0, 0x17, 0xf1, 0x60, 0x68, 0x12, 0xb7, 0x7a, 0xc3, 0xe9, 0xfa, 0x3d, 0x53,
    0x96, 0x84, 0x6b, 0xba, 0xf2, 0x63, 0x9a, 0x19, 0x7c, 0xae, 0xe5, 0xf5, 0xf7, 0x16, 0x6a, 0xa2,
    0x39, 0xb6, 0x7b, 0x0f, 0xc1, 0x93, 0x81, 0x1b, 0xee, 0xb4, 0x1a, 0xea, 0xd0, 0x91, 0x2f, 0xb8,
    0x55, 0xb9, 0xda, 0x85, 0x3f, 0x41, 0xbf, 0xe0, 0x5a, 0x58, 0x80, 0x5f, 0x66, 0x0b, 0xd8, 0x90,
    0x35, 0xd5, 0xc0, 0xa7, 0x33, 0x06, 0x65, 0x69, 0x45, 0x00, 0x94, 0x56, 0x6d, 0x98, 0x9b, 0x76,
    0x97, 0xfc, 0xb2, 0xc2, 0xb0, 0xfe, 0xdb, 0x20, 0xe1, 0xeb, 0xd6, 0xe4, 0xdd, 0x47, 0x4a, 0x1d,
    0x42, 0xed, 0x9e, 0x6e, 0x49, 0x3c, 0xcd, 0x43, 0x27, 0xd2, 0x07, 0xd4, 0xde, 0xc7, 0x67, 0x18,
    0x89, 0xcb, 0x30, 0x1f, 0x8d, 0xc6, 0x8f, 0xaa, 0xc8, 0x74, 0xdc, 0xc9, 0x5d, 0x5c, 0x31, 0xa4,
    0x70, 0x88, 0x61, 0x2c, 0x9f, 0x0d, 0x2b, 0x87, 0x50, 0x82, 0x54, 0x64, 0x26, 0x7d, 0x03, 0x40,
    0x34, 0x4b, 0x1c, 0x73, 0xd1, 0xc4, 0xfd, 0x3b, 0xcc, 0xfb, 0x7f, 0xab, 0xe6, 0x3e, 0x5b, 0xa5,
    0xad, 0x04, 0x23, 0x9c, 0x14, 0x51, 0x22, 0xf0, 0x29, 0x79, 0x71, 0x7e, 0xff, 0x8c, 0x0e, 0xe2,
    0x0c, 0xef, 0xbc, 0x72, 0x75, 0x6f, 0x37, 0xa1, 0xec, 0xd3, 0x8e, 0x62, 0x8b, 0x86, 0x10, 0xe8,
    0x08, 0x77, 0x11, 0xbe, 0x92, 0x4f, 0x24, 0xc5, 0x32, 0x36, 0x9d, 0xcf, 0xf3, 0xa6, 0xbb, 0xac,
    0x5e, 0x6c, 0xa9, 0x13, 0x57, 0x25, 0xb5, 0xe3, 0xbd, 0xa8, 0x3a, 0x01, 0x05, 0x59, 0x2a, 0x46,
];

/// The inverse of the F table, used to show that F is a permutation:
/// `F_INV[F[x]] == x` and `F[F_INV[y]] == y` for every byte.
pub const F_INV: [u8; 256] = [
    0x69, 0xfb, 0x22, 0xae, 0xc1, 0xfc, 0x65, 0x8a, 0xe0, 0x02, 0x20, 0x5d, 0xd0, 0xa5, 0xce, 0x43,
    0xde, 0xe2, 0x28, 0xf3, 0xc4, 0x0a, 0x3d, 0x24, 0x8f, 0x37, 0x4a, 0x47, 0xb2, 0x7f, 0x1b, 0x93,
    0x77, 0x09, 0xc6, 0xc2, 0xe6, 0xf5, 0xac, 0x88, 0x1f, 0xc8, 0xfe, 0xa6, 0xa3, 0x11, 0x17, 0x4e,
    0x92, 0x9e, 0xe8, 0x64, 0xb0, 0x60, 0xe9, 0xd6, 0x1d, 0x40, 0xfa, 0xb7, 0x85, 0x2e, 0xbd, 0x54,
    0xaf, 0x55, 0x80, 0x87, 0x1e, 0x68, 0xff, 0x7d, 0x05, 0x84, 0x7e, 0xb1, 0x15, 0x12, 0x1c, 0xe5,
    0xa8, 0xc5, 0x18, 0x2f, 0xaa, 0x50, 0x6b, 0xf4, 0x59, 0xfd, 0x58, 0xbe, 0x9d, 0x9c, 0xf0, 0x5b,
    0x26, 0xa2, 0xdb, 0x35, 0xab, 0x66, 0x5c, 0x8e, 0x27, 0x67, 0x3e, 0x32, 0xf1, 0x6c, 0x83, 0xd5,
    0xa0, 0xca, 0xd3, 0xb3, 0x99, 0xd4, 0x6f, 0xe1, 0x0b, 0xc9, 0x2a, 0x42, 0x38, 0xad, 0xcb, 0xba,
    0x5a, 0x46, 0xa9, 0x03, 0x31, 0x53, 0xdd, 0xa7, 0xa1, 0x90, 0x13, 0xdc, 0xcd, 0x94, 0xda, 0x96,
    0x5f, 0x4d, 0xe4, 0x45, 0x6a, 0x19, 0x30, 0x70, 0x6d, 0x0c, 0x36, 0x6e, 0xc3, 0xea, 0x82, 0xa4,
    0x23, 0xd7, 0x3f, 0x00, 0x9f, 0xbf, 0xed, 0x63, 0xf9, 0xf2, 0x97, 0xbb, 0xef, 0xc0, 0x39, 0x0e,
    0x74, 0x0d, 0x72, 0x08, 0x49, 0xf6, 0x41, 0x29, 0x4f, 0x51, 0x33, 0xee, 0xd2, 0xf8, 0xe3, 0x56,
    0x62, 0x44, 0x73, 0x2b, 0xb5, 0xe7, 0x95, 0x8d, 0x98, 0x9b, 0x16, 0x91, 0xb8, 0x86, 0x14, 0xeb,
    0x4c, 0xb4, 0x89, 0xd9, 0x8b, 0x61, 0x7a, 0x01, 0x5e, 0x1a, 0x52, 0x76, 0x9a, 0x7c, 0x8c, 0x21,
    0x57, 0x78, 0xcf, 0xf7, 0x7b, 0x3a, 0xbc, 0x10, 0xdf, 0x2c, 0x4b, 0x79, 0xd8, 0x81, 0x48, 0xd1,
    0xc7, 0x25, 0x34, 0xec, 0x07, 0x3b, 0x06, 0x3c, 0x04, 0x0f, 0x2d, 0xb9, 0x71, 0xb6, 0x75, 0xcc,
];

/// The F-table entry at index `x`.
pub open spec fn f_spec(x: u8) -> u8 {
    F[x as int]
}

/// The inverse-table entry at index `x`.
pub open spec fn f_inv_spec(x: u8) -> u8 {
    F_INV[x as int]
}

/// Looks up the F table at index `x`.
pub fn f_entry(x: u8) -> (r: u8)
    ensures
        r == f_spec(x),
{
    F[x as usize]
}

/// F_INV undoes F and F undoes F_INV, entry by entry.
#[verifier::rlimit(100)]
proof fn lemma_f_inv_entries(x: u8)
    ensures
        f_inv_spec(f_spec(x)) == x,
        f_spec(f_inv_spec(x)) == x,
{
}

/// The 256 entries of the F table form a permutation of the byte range:
/// no two indices share an entry, and every byte occurs as an entry.
pub proof fn lemma_f_bijective()
    ensures
        forall|x: u8, y: u8| f_spec(x) == f_spec(y) ==> x == y,
        forall|y: u8| f_spec(#[trigger] f_inv_spec(y)) == y,
{
    assert forall|x: u8, y: u8| f_spec(x) == f_spec(y) implies x == y by {
        lemma_f_inv_entries(x);
        lemma_f_inv_entries(y);
    }
    assert forall|y: u8| f_spec(#[trigger] f_inv_spec(y)) == y by {
        lemma_f_inv_entries(y);
    }
}

} // verus!
