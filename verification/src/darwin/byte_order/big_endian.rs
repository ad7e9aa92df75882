//! Extraction from pixels stored as alpha, red, green, blue.

use vstd::prelude::*;

verus! {

/// Number of bytes left of `len` bytes when the first of every four is
/// dropped.
pub open spec fn rgb_len(len: int) -> int {
    3 * (len / 4) + if len % 4 == 0 {
        0int
    } else {
        len % 4 - 1
    }
}

/// The bytes without the first of every four.
pub open spec fn rgb_of(bytes: Seq<u8>) -> Seq<u8> {
    Seq::new(rgb_len(bytes.len() as int) as nat, |i: int| bytes[4 * (i / 3) + 1 + i % 3])
}

/// Hands the bytes back as they are.
pub fn extract_rgba(bytes: Vec<u8>) -> (rgba: Vec<u8>)
    ensures
        rgba@ == bytes@,
{
    bytes
}

/// Drops the first byte of every four, which holds alpha.
pub fn extract_rgb(bytes: Vec<u8>) -> (rgb: Vec<u8>)
    ensures
        rgb@ == rgb_of(bytes@),
{
    let mut rgb: Vec<u8> = Vec::new();
    let mut index: usize = 0;
    while index < bytes.len()
        invariant
            index <= bytes@.len(),
            rgb@.len() == rgb_len(index as int),
            forall|j: int| 0 <= j < rgb@.len() ==> rgb@[j] == bytes@[4 * (j / 3) + 1 + j % 3],
        decreases bytes@.len() - index,
    {
        if index % 4 != 0 {
            rgb.push(bytes[index]);
        }
        index += 1;
    }
    assert(rgb@ =~= rgb_of(bytes@));
    rgb
}

} // verus!
