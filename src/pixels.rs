//! Conversion of premultiplied RGBA pixel data into the little-endian
//! ARGB8888 byte order (`B, G, R, A`) that shared-memory buffers carry.

use vstd::prelude::*;

verus! {

/// Byte `i` of the ARGB8888 image whose RGBA source is `src`.
pub open spec fn argb8888_byte(src: Seq<u8>, i: int) -> u8 {
    let base = i - i % 4;
    if i % 4 == 0 {
        src[base + 2]
    } else if i % 4 == 1 {
        src[base + 1]
    } else if i % 4 == 2 {
        src[base]
    } else {
        src[base + 3]
    }
}

/// The ARGB8888 image of an RGBA byte sequence of whole pixels.
pub open spec fn argb8888_of(src: Seq<u8>) -> Seq<u8> {
    Seq::new(src.len(), |i: int| argb8888_byte(src, i))
}

/// Converts whole RGBA pixels into ARGB8888 bytes: each pixel `(r, g, b, a)`
/// becomes the four bytes `b, g, r, a`.
pub fn rgba_to_argb8888(pixels: &[u8]) -> (out: Vec<u8>)
    requires
        pixels.len() % 4 == 0,
    ensures
        out@ == argb8888_of(pixels@),
{
    let n: usize = pixels.len() / 4;
    let mut out: Vec<u8> = Vec::with_capacity(pixels.len());
    let mut p: usize = 0;
    while p < n
        invariant
            n == pixels.len() / 4,
            pixels.len() % 4 == 0,
            p <= n,
            out.len() == 4 * p,
            forall|j: int| 0 <= j < out.len() ==> out@[j] == argb8888_byte(pixels@, j),
        decreases n - p,
    {
        let base: usize = 4 * p;
        out.push(pixels[base + 2]);
        out.push(pixels[base + 1]);
        out.push(pixels[base]);
        out.push(pixels[base + 3]);
        p = p + 1;
    }
    assert(out@ =~= argb8888_of(pixels@));
    out
}

/// Every pixel `(r, g, b, a)` of the source lands at the same pixel offset of
/// the converted image as the bytes `b, g, r, a`.
pub proof fn lemma_channel_order(src: Seq<u8>, p: int)
    requires
        src.len() % 4 == 0,
        0 <= p < src.len() / 4,
    ensures
        argb8888_of(src)[4 * p] == src[4 * p + 2],
        argb8888_of(src)[4 * p + 1] == src[4 * p + 1],
        argb8888_of(src)[4 * p + 2] == src[4 * p],
        argb8888_of(src)[4 * p + 3] == src[4 * p + 3],
{
}

} // verus!
