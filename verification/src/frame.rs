//! The frame that the benchmarks are run on: BGRA, four bytes per pixel, rows
//! packed without gaps.

use crate::jpeg_bench::jpeg_accepts;
use crate::qoi_bench::pixel_count;
use crate::qoi_bench::qoi_accepts;
use crate::rapid_bench::rgba_len;
use vstd::prelude::*;

verus! {

/// Width of the frame in pixels.
pub const FRAME_WIDTH: u32 = 1920;

/// Height of the frame in pixels.
pub const FRAME_HEIGHT: u32 = 1080;

/// Whether `len` is the length of a whole frame of `width` by `height`,
/// neither cut short nor followed by anything.
pub open spec fn whole_frame(len: nat, width: u32, height: u32) -> bool {
    len == (width as nat) * (height as nat) * 4
}

/// A whole frame of at least one and at most 400 million pixels is taken by
/// all three benchmarks: the JPEG encoder is handed it, and both lossless
/// codecs encode it.
pub proof fn lemma_whole_frame_is_taken(len: nat, width: u32, height: u32)
    requires
        whole_frame(len, width, height),
        1 <= pixel_count(width, height) <= 400_000_000,
    ensures
        jpeg_accepts(len, width, height),
        rgba_len(width, height) <= len,
        qoi_accepts(len, width, height),
{
    let w = width as nat;
    let h = height as nat;
    assert(w >= 1 && h >= 1) by (nonlinear_arith)
        requires
            1 <= w * h,
    ;
    assert(w <= w * h && h <= w * h) by (nonlinear_arith)
        requires
            w >= 1,
            h >= 1,
    ;
    assert(w * 4 * h == w * h * 4) by (nonlinear_arith);
}

} // verus!
