//! The lossy benchmark: what is handed to a JPEG encoder, and when.
//!
//! The frame is described to the encoder as BGRA, four bytes per pixel, rows
//! packed without gaps, at the highest quality and with 2x2 chroma
//! subsampling. The encoder itself is called by the program that uses this
//! crate; what is decided here is whether a buffer may be handed to it at all.

use crate::clock::Span;
use crate::text::encode_line;
use crate::text::encode_line_text;
use vstd::prelude::*;

verus! {

/// The label under which this benchmark reports.
pub const JPEG_LABEL: &'static str = "test_jpeg";

/// Bytes that one BGRA pixel takes.
pub const BYTES_PER_PIXEL: u64 = 4;

/// The quality asked of the encoder: the highest there is.
pub const JPEG_QUALITY: i32 = 100;

/// How the colours of one pixel lie in memory.
#[derive(Clone, Copy, Debug, PartialEq, Eq, Structural)]
pub enum PixelFormat {
    /// Red, green, blue.
    Rgb,
    /// Blue, green, red.
    Bgr,
    /// Red, green, blue, alpha.
    Rgba,
    /// Blue, green, red, alpha.
    Bgra,
}

/// How much of the colour information the encoder keeps.
#[derive(Clone, Copy, Debug, PartialEq, Eq, Structural)]
pub enum Subsamp {
    /// One chroma sample for every pixel.
    Full,
    /// One chroma sample for every two pixels of a row.
    Sub2x1,
    /// One chroma sample for every square of two by two pixels.
    Sub2x2,
}

/// An image as a JPEG encoder wants it described, and how to encode it.
#[derive(Clone, Copy, Debug, PartialEq, Eq, Structural)]
pub struct JpegJob {
    /// Width in pixels.
    pub width: usize,
    /// Height in pixels.
    pub height: usize,
    /// Bytes from the start of one row to the start of the next.
    pub pitch: usize,
    /// Layout of one pixel.
    pub format: PixelFormat,
    /// Quality from 1 to 100.
    pub quality: i32,
    /// Chroma subsampling.
    pub subsamp: Subsamp,
}

impl PixelFormat {
    /// Bytes that one pixel takes.
    pub open spec fn size(self) -> nat {
        match self {
            PixelFormat::Rgb | PixelFormat::Bgr => 3,
            PixelFormat::Rgba | PixelFormat::Bgra => 4,
        }
    }
}

/// Why a buffer is not handed to the encoder.
#[derive(Clone, Copy, Debug, PartialEq, Eq, Structural)]
pub enum JpegRejection {
    /// The height or the length of a row does not fit the 32-bit signed
    /// integers that the encoder counts in.
    DimensionTooLarge,
    /// The buffer ends before the last row does: the image needs `needed`
    /// bytes and the buffer has `len`.
    BufferTooSmall { needed: u64, len: usize },
}

impl JpegJob {
    /// Rows do not overlap, and a buffer of `len` bytes reaches to the end of
    /// the last row.
    pub open spec fn covered_by(self, len: nat) -> bool {
        &&& self.pitch >= self.width * self.format.size()
        &&& self.height == 0 || self.pitch * (self.height - 1) + self.width * self.format.size()
            <= len
    }

    /// Every number of the description fits a 32-bit signed integer.
    pub open spec fn in_range(self) -> bool {
        &&& self.width <= i32::MAX
        &&& self.height <= i32::MAX
        &&& self.pitch <= i32::MAX
        &&& 1 <= self.quality <= 100
    }
}

/// Bytes in one packed row of BGRA pixels.
pub open spec fn row_len(width: u32) -> nat {
    (width as nat) * 4
}

/// Bytes that a packed BGRA image takes.
pub open spec fn frame_len(width: u32, height: u32) -> nat {
    row_len(width) * (height as nat)
}

/// Whether row and height can be counted in 32-bit signed integers.
pub open spec fn jpeg_countable(width: u32, height: u32) -> bool {
    row_len(width) <= i32::MAX && height <= i32::MAX
}

/// Whether a buffer of `len` bytes is handed to the encoder as an image of
/// `width` by `height`.
pub open spec fn jpeg_accepts(len: nat, width: u32, height: u32) -> bool {
    jpeg_countable(width, height) && frame_len(width, height) <= len
}

/// The description of an accepted image.
pub open spec fn jpeg_job_of(width: u32, height: u32) -> JpegJob {
    JpegJob {
        width: width as usize,
        height: height as usize,
        pitch: row_len(width) as usize,
        format: PixelFormat::Bgra,
        quality: 100,
        subsamp: Subsamp::Sub2x2,
    }
}

/// Describes the frame for the encoder: BGRA pixels, the highest quality,
/// 2x2 chroma subsampling.
///
/// The stride is derived from the width, `width * 4`. A frame whose rows or
/// height cannot be counted in 32-bit signed integers is turned away first,
/// then one that is shorter than `width * 4 * height` bytes. Bytes beyond the
/// image are allowed.
pub fn jpeg_job(len: usize, width: u32, height: u32) -> (res: Result<JpegJob, JpegRejection>)
    ensures
        match res {
            Ok(job) => {
                &&& jpeg_accepts(len as nat, width, height)
                &&& job == jpeg_job_of(width, height)
                &&& job.in_range()
                &&& job.covered_by(len as nat)
            },
            Err(JpegRejection::DimensionTooLarge) => !jpeg_countable(width, height),
            Err(JpegRejection::BufferTooSmall { needed, len: got }) => {
                &&& jpeg_countable(width, height)
                &&& frame_len(width, height) > len
                &&& needed == frame_len(width, height)
                &&& got == len
            },
        },
{
    let pitch = width as u64 * BYTES_PER_PIXEL;
    if pitch > i32::MAX as u64 || height as u64 > i32::MAX as u64 {
        return Err(JpegRejection::DimensionTooLarge);
    }
    assert(pitch * (height as u64) <= 0x7fff_ffff * 0x7fff_ffff) by (nonlinear_arith)
        requires
            0 <= pitch <= 0x7fff_ffff,
            0 <= height <= 0x7fff_ffff,
    ;
    let needed = pitch * height as u64;
    if needed > len as u64 {
        return Err(JpegRejection::BufferTooSmall { needed, len });
    }
    let job = JpegJob {
        width: width as usize,
        height: height as usize,
        pitch: pitch as usize,
        format: PixelFormat::Bgra,
        quality: JPEG_QUALITY,
        subsamp: Subsamp::Sub2x2,
    };
    assert(job.covered_by(len as nat)) by {
        if height > 0 {
            assert(pitch * (height - 1) + width * 4 == pitch * height) by (nonlinear_arith)
                requires
                    pitch == width * 4,
            ;
        }
    }
    Ok(job)
}

/// The line that reports an encoding which took `span` and gave `size` bytes.
pub fn jpeg_line(label: &str, span: Span, size: usize) -> (line: String)
    ensures
        line@ == encode_line_text(label@, span.millis(), size as nat),
{
    encode_line(label, span.elapsed_millis(), size)
}

} // verus!
