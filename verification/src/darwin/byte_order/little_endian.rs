//! Extraction from pixels stored as blue, green, red, alpha.

use vstd::prelude::*;

verus! {

/// The RGBA bytes of whole BGRA pixels: red and blue change places.
pub open spec fn rgba_of(bytes: Seq<u8>) -> Seq<u8> {
    Seq::new(
        (4 * (bytes.len() / 4)) as nat,
        |i: int|
            bytes[4 * (i / 4) + if i % 4 == 0 {
                2int
            } else if i % 4 == 2 {
                0int
            } else {
                i % 4
            }],
    )
}

/// The RGB bytes of whole BGRA pixels: alpha is dropped, red and blue change
/// places.
pub open spec fn rgb_of(bytes: Seq<u8>) -> Seq<u8> {
    Seq::new((3 * (bytes.len() / 4)) as nat, |i: int| bytes[4 * (i / 3) + 2 - i % 3])
}

/// Reorders each whole pixel from blue, green, red, alpha to red, green,
/// blue, alpha. Bytes behind the last whole pixel are left out.
pub fn extract_rgba(bytes: &[u8]) -> (rgba: Vec<u8>)
    ensures
        rgba@ == rgba_of(bytes@),
{
    let len: usize = bytes.len();
    let pixels: usize = len / 4;
    let mut rgb: Vec<u8> = Vec::new();
    let mut i: usize = 0;
    while i < pixels
        invariant
            len == bytes@.len(),
            pixels == len / 4,
            i <= pixels,
            rgb@.len() == 4 * i,
            forall|j: int| 0 <= j < rgb@.len() ==> rgb@[j] == rgba_of(bytes@)[j],
        decreases pixels - i,
    {
        let offset: usize = i * 4;
        rgb.push(bytes[offset + 2]);
        rgb.push(bytes[offset + 1]);
        rgb.push(bytes[offset]);
        rgb.push(bytes[offset + 3]);
        i += 1;
    }
    assert(rgb@ =~= rgba_of(bytes@));
    rgb
}

/// Takes red, green and blue of each whole pixel stored as blue, green, red,
/// alpha. Bytes behind the last whole pixel are left out.
pub fn extract_rgb(bytes: &[u8]) -> (rgb: Vec<u8>)
    ensures
        rgb@ == rgb_of(bytes@),
{
    let len: usize = bytes.len();
    let pixels: usize = len / 4;
    let mut rgb: Vec<u8> = Vec::new();
    let mut i: usize = 0;
    while i < pixels
        invariant
            len == bytes@.len(),
            pixels == len / 4,
            i <= pixels,
            rgb@.len() == 3 * i,
            forall|j: int| 0 <= j < rgb@.len() ==> rgb@[j] == rgb_of(bytes@)[j],
        decreases pixels - i,
    {
        let offset: usize = i * 4;
        rgb.push(bytes[offset + 2]);
        rgb.push(bytes[offset + 1]);
        rgb.push(bytes[offset]);
        i += 1;
    }
    assert(rgb@ =~= rgb_of(bytes@));
    rgb
}

} // verus!
