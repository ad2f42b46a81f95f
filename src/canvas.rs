//! Blank canvases for the rasteriser, and the bytes it leaves in them.
//!
//! Canvases are `tiny_skia` pixmaps: premultiplied RGBA, four bytes a pixel,
//! rows without padding.

use vstd::prelude::*;

verus! {

#[verifier::external_type_specification]
#[verifier::external_body]
pub struct ExPixmap(tiny_skia::Pixmap);

/// The bytes a pixmap holds, row by row, four per pixel.
pub uninterp spec fn pixmap_bytes(p: tiny_skia::Pixmap) -> Seq<u8>;

/// A pixmap of this size can be made: both sides are non-zero, a row's
/// bytes fit in an `i32` and the whole image's bytes in a `usize`.
pub open spec fn canvas_fits(width: u32, height: u32) -> bool {
    &&& width > 0
    &&& height > 0
    &&& 4 * width <= i32::MAX
    &&& 4 * width * height <= usize::MAX
}

/// Relies on `tiny_skia::Pixmap::new`: it makes a pixmap exactly for the
/// sizes of `canvas_fits`, filled with transparent black.
pub assume_specification[ tiny_skia::Pixmap::new ](width: u32, height: u32) -> (r: Option<
    tiny_skia::Pixmap,
>)
    ensures
        r is Some <==> canvas_fits(width, height),
        r matches Some(p) ==> pixmap_bytes(p) == Seq::new((4 * width * height) as nat, |i: int| 0u8),
;

/// Relies on `tiny_skia::Pixmap::data`: it lends out the bytes the pixmap
/// holds.
pub assume_specification[ tiny_skia::Pixmap::data ](p: &tiny_skia::Pixmap) -> (r: &[u8])
    ensures
        r@ == pixmap_bytes(*p),
;

/// A transparent canvas of `width` x `height` pixels for the rasteriser, or
/// `None` when no pixmap of that size can be made.
pub fn blank_canvas(width: u32, height: u32) -> (r: Option<tiny_skia::Pixmap>)
    ensures
        r is Some <==> canvas_fits(width, height),
        r matches Some(p) ==> pixmap_bytes(p) == Seq::new((4 * width * height) as nat, |i: int| 0u8),
{
    tiny_skia::Pixmap::new(width, height)
}

} // verus!
