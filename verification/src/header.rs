//! The fourteen bytes that open every QOI stream.
//!
//! Layout: the magic `qoif`, the width and the height as big-endian 32-bit
//! numbers, the number of channels (3 or 4) and the colour space (0 or 1).

use vstd::prelude::*;

verus! {

/// Length of the header in bytes.
pub const HEADER_LEN: usize = 14;

/// What a header says about the image that follows it.
#[derive(Clone, Copy, Debug, PartialEq, Eq, Structural)]
pub struct Header {
    /// Width in pixels.
    pub width: u32,
    /// Height in pixels.
    pub height: u32,
    /// Bytes per pixel: 3 or 4.
    pub channels: u8,
    /// 0 for sRGB with linear alpha, 1 for all channels linear.
    pub colorspace: u8,
}

impl Header {
    /// Number of pixels that the header announces.
    pub open spec fn pixels(self) -> nat {
        (self.width as nat) * (self.height as nat)
    }

    /// Number of bytes of the raw image that the header announces.
    pub open spec fn pixel_bytes(self) -> nat {
        (self.width as nat) * (self.height as nat) * (self.channels as nat)
    }

    /// Number of pixels that the header announces.
    pub fn pixel_total(&self) -> (n: u64)
        ensures
            n == self.pixels(),
    {
        let w = self.width as u64;
        let h = self.height as u64;
        assert(w * h <= 0xffff_ffff * 0xffff_ffff) by (nonlinear_arith)
            requires
                0 <= w <= 0xffff_ffff,
                0 <= h <= 0xffff_ffff,
        ;
        w * h
    }

    /// Number of bytes of the raw image that the header announces.
    pub fn raw_len(&self) -> (n: u128)
        ensures
            n == self.pixel_bytes(),
    {
        let w = self.width as u128;
        let h = self.height as u128;
        let c = self.channels as u128;
        assert(w * h <= 0xffff_ffff * 0xffff_ffff) by (nonlinear_arith)
            requires
                0 <= w <= 0xffff_ffff,
                0 <= h <= 0xffff_ffff,
        ;
        assert(w * h * c <= 0xffff_ffff * 0xffff_ffff * 255) by (nonlinear_arith)
            requires
                0 <= w * h <= 0xffff_ffff * 0xffff_ffff,
                0 <= c <= 255,
        ;
        w * h * c
    }
}

/// The most pixels that one byte of a stream can stand for: a run of the
/// longest kind.
pub const LONGEST_RUN: u64 = 62;

/// The most pixels that a stream of `len` bytes can hold, were every byte
/// after the header a run of the longest kind.
pub open spec fn most_pixels(len: nat) -> nat {
    if len >= 14 {
        62 * (len - 14) as nat
    } else {
        0
    }
}

/// Whether `len` can be the length of a stream for `pixels` pixels of
/// `channels` bytes each: header and end marker are always there, and no
/// pixel takes more than one byte beyond its channels.
pub open spec fn stream_len_ok(len: nat, pixels: nat, channels: nat) -> bool {
    22 <= len <= 22 + pixels * (channels + 1)
}

/// The four bytes from `at` on, read as a big-endian number.
pub open spec fn be32(bytes: Seq<u8>, at: int) -> nat {
    (bytes[at] as nat) * 0x100_0000 + (bytes[at + 1] as nat) * 0x1_0000 + (bytes[at + 2] as nat)
        * 0x100 + (bytes[at + 3] as nat)
}

/// Whether the stream opens with the bytes `q`, `o`, `i`, `f`.
pub open spec fn has_magic(bytes: Seq<u8>) -> bool {
    bytes.len() >= 4 && bytes[0] == 0x71 && bytes[1] == 0x6f && bytes[2] == 0x69 && bytes[3]
        == 0x66
}

/// The header that a stream opens with, if it opens with one: at least
/// fourteen bytes, the magic, 3 or 4 channels and a colour space of 0 or 1.
pub open spec fn header_of(bytes: Seq<u8>) -> Option<Header> {
    if bytes.len() >= 14 && has_magic(bytes) && (bytes[12] == 3 || bytes[12] == 4) && bytes[13]
        <= 1 {
        Some(
            Header {
                width: be32(bytes, 4) as u32,
                height: be32(bytes, 8) as u32,
                channels: bytes[12],
                colorspace: bytes[13],
            },
        )
    } else {
        None
    }
}

fn read_be32(bytes: &Vec<u8>, at: usize) -> (v: u32)
    requires
        at + 4 <= bytes.len(),
    ensures
        v == be32(bytes@, at as int),
{
    let b0 = bytes[at] as u32;
    let b1 = bytes[at + 1] as u32;
    let b2 = bytes[at + 2] as u32;
    let b3 = bytes[at + 3] as u32;
    b0 * 0x100_0000 + b1 * 0x1_0000 + b2 * 0x100 + b3
}

/// Whether `bytes` opens with a header that announces more pixels than a
/// stream of this length can hold.
pub open spec fn ends_too_early(bytes: Seq<u8>) -> bool {
    header_of(bytes) matches Some(header) && header.pixels() > most_pixels(bytes.len())
}

/// Whether a stream of `len` bytes that opens with `header` is too short for
/// the image that the header announces.
pub fn too_short_for(len: usize, header: &Header) -> (short: bool)
    ensures
        short == (header.pixels() > most_pixels(len as nat)),
{
    let after_header = if len >= HEADER_LEN {
        (len - HEADER_LEN) as u128
    } else {
        0
    };
    assert(after_header * LONGEST_RUN <= usize::MAX * 62) by (nonlinear_arith)
        requires
            0 <= after_header <= usize::MAX,
            LONGEST_RUN == 62,
    ;
    header.pixel_total() as u128 > after_header * LONGEST_RUN as u128
}

/// Reads the header that `bytes` opens with.
pub fn read_header(bytes: &Vec<u8>) -> (header: Option<Header>)
    ensures
        header == header_of(bytes@),
{
    if bytes.len() < HEADER_LEN {
        return None;
    }
    if bytes[0] != 0x71 || bytes[1] != 0x6f || bytes[2] != 0x69 || bytes[3] != 0x66 {
        return None;
    }
    let channels = bytes[12];
    let colorspace = bytes[13];
    if (channels != 3 && channels != 4) || colorspace > 1 {
        return None;
    }
    let width = read_be32(bytes, 4);
    let height = read_be32(bytes, 8);
    Some(Header { width, height, channels, colorspace })
}

} // verus!
