//! The lossless benchmark on the `qoi` codec.
//!
//! This codec takes the dimensions alone and works out the number of channels
//! from the length of the buffer, so it accepts a frame of three or of four
//! bytes per pixel and nothing else. A decoding that fails is let pass: the
//! run goes on and reports the time it took.

use crate::clock::Span;
use crate::clock::Stopwatch;
use crate::header::ends_too_early;
use crate::header::header_of;
use crate::header::read_header;
use crate::header::stream_len_ok;
use crate::header::too_short_for;
use crate::header::Header;
use crate::report::RoundTrip;
use vstd::prelude::*;

verus! {

/// The label under which this benchmark reports.
pub const QOI_LABEL: &'static str = "test_qoi";

/// The largest number of pixels that the codec takes.
pub const MAX_PIXELS: u64 = 400_000_000;

#[verifier::external_type_specification]
#[verifier::external_body]
pub struct ExQoiError(qoi::Error);

/// Why the codec did not encode a frame.
#[derive(Clone, Copy, Debug, PartialEq, Eq, Structural)]
pub enum QoiRejection {
    /// The image is empty or has more than `MAX_PIXELS` pixels.
    InvalidImageDimensions { width: u32, height: u32 },
    /// The length of the buffer is no multiple of the number of pixels.
    InvalidImageLength { size: usize, width: u32, height: u32 },
    /// The buffer holds neither three nor four bytes per pixel; `channels` is
    /// the number it does hold, capped at 255.
    InvalidChannels { channels: u8 },
}

/// The bytes that `qoi` writes for the image in `pixels`.
pub uninterp spec fn qoi_encoding(pixels: Seq<u8>, width: u32, height: u32) -> Seq<u8>;

/// The raw pixels that `qoi` reads out of an encoded image, if it reads any.
pub uninterp spec fn qoi_decoding(bytes: Seq<u8>) -> Option<Seq<u8>>;

/// Number of pixels of an image.
pub open spec fn pixel_count(width: u32, height: u32) -> nat {
    (width as nat) * (height as nat)
}

/// Whether the codec encodes a buffer of `len` bytes as an image of `width`
/// by `height`: the image has between one and `MAX_PIXELS` pixels and the
/// buffer holds three or four bytes for each.
pub open spec fn qoi_accepts(len: nat, width: u32, height: u32) -> bool {
    let n = pixel_count(width, height);
    1 <= n <= 400_000_000 && (len == 3 * n || len == 4 * n)
}

/// The reason given for a buffer that is not accepted.
pub open spec fn qoi_rejection(len: nat, width: u32, height: u32) -> QoiRejection {
    let n = pixel_count(width, height);
    if n == 0 || n > 400_000_000 {
        QoiRejection::InvalidImageDimensions { width, height }
    } else if len % n != 0 {
        QoiRejection::InvalidImageLength { size: len as usize, width, height }
    } else if len / n > 255 {
        QoiRejection::InvalidChannels { channels: 255 }
    } else {
        QoiRejection::InvalidChannels { channels: (len / n) as u8 }
    }
}

/// The header that the codec writes in front of an accepted image.
pub open spec fn qoi_header(len: nat, width: u32, height: u32) -> Header {
    Header {
        width,
        height,
        channels: if len == 3 * pixel_count(width, height) {
            3u8
        } else {
            4u8
        },
        colorspace: 0,
    }
}

/// `encoded` is what the codec writes for `pixels`: the encoding, opening
/// with the header of the image.
pub open spec fn qoi_encodes_to(pixels: Seq<u8>, width: u32, height: u32, encoded: Seq<u8>) -> bool {
    &&& encoded == qoi_encoding(pixels, width, height)
    &&& header_of(encoded) == Some(qoi_header(pixels.len(), width, height))
    &&& stream_len_ok(
        encoded.len(),
        pixel_count(width, height),
        qoi_header(pixels.len(), width, height).channels as nat,
    )
}

/// What decoding `bytes` gives. A stream that cannot hold the image it
/// announces gives nothing; on every other stream the codec decides.
pub open spec fn qoi_decode_outcome(bytes: Seq<u8>) -> Option<Seq<u8>> {
    if ends_too_early(bytes) {
        None
    } else {
        qoi_decoding(bytes)
    }
}

/// `decoded` is what decoding `encoded` gives: the decoding, as long as the
/// header of `encoded` announces.
pub open spec fn qoi_decodes_to(encoded: Seq<u8>, decoded: Seq<u8>) -> bool {
    &&& qoi_decode_outcome(encoded) == Some(decoded)
    &&& header_of(encoded) matches Some(header) && decoded.len() == header.pixel_bytes()
}

/// The length of what decoding `bytes` gives, if it gives anything.
pub open spec fn qoi_decoded_len(bytes: Seq<u8>) -> Option<usize> {
    match qoi_decode_outcome(bytes) {
        Some(pixels) => Some(pixels.len() as usize),
        None => None,
    }
}

/// `qoi::encode_to_vec`. It encodes exactly the buffers described by
/// `qoi_accepts`, and the encoded image opens with the header of the image:
/// the magic, both dimensions big-endian, the number of channels found and
/// colour space 0. The image is written into a buffer of `encode_max_len`
/// bytes, one more per pixel than it has channels and 22 for header and end
/// marker, and cut to what was written.
#[verifier::external_body]
fn encode_to_vec(pixels: &Vec<u8>, width: u32, height: u32) -> (res: Result<Vec<u8>, qoi::Error>)
    ensures
        res is Ok <==> qoi_accepts(pixels@.len(), width, height),
        res matches Ok(bytes) ==> bytes@ == qoi_encoding(pixels@, width, height),
        res matches Ok(bytes) ==> header_of(bytes@) == Some(qoi_header(pixels@.len(), width, height)),
        res matches Ok(bytes) ==> stream_len_ok(bytes@.len(), pixel_count(width, height), qoi_header(pixels@.len(), width, height).channels as nat),
{
    qoi::encode_to_vec(pixels, width, height)
}

/// `qoi::decode_to_vec`, without the header it returns beside the pixels.
/// When it succeeds the stream opened with a well-formed header and the image
/// returned has exactly the number of bytes that this header announces.
#[verifier::external_body]
fn decode_to_vec(bytes: &Vec<u8>) -> (res: Result<Vec<u8>, qoi::Error>)
    ensures
        res is Ok <==> qoi_decoding(bytes@) is Some,
        res matches Ok(pixels) ==> qoi_decoding(bytes@) == Some(pixels@),
        res matches Ok(pixels) ==> header_of(bytes@) is Some,
        res matches Ok(pixels) ==> pixels@.len() == header_of(bytes@)->0.pixel_bytes(),
{
    match qoi::decode_to_vec(bytes) {
        Ok((_, pixels)) => Ok(pixels),
        Err(error) => Err(error),
    }
}

/// Whether the codec encodes a buffer of `len` bytes as an image of `width`
/// by `height`.
pub fn accepts(len: usize, width: u32, height: u32) -> (yes: bool)
    ensures
        yes == qoi_accepts(len as nat, width, height),
{
    let w = width as u64;
    let h = height as u64;
    assert(w * h <= 0xffff_ffff * 0xffff_ffff) by (nonlinear_arith)
        requires
            0 <= w <= 0xffff_ffff,
            0 <= h <= 0xffff_ffff,
    ;
    let n = w * h;
    1 <= n && n <= MAX_PIXELS && (len as u64 == 3 * n || len as u64 == 4 * n)
}

/// The reason for which a buffer of `len` bytes is not encoded.
pub fn rejection(len: usize, width: u32, height: u32) -> (reason: QoiRejection)
    ensures
        reason == qoi_rejection(len as nat, width, height),
{
    let w = width as u64;
    let h = height as u64;
    assert(w * h <= 0xffff_ffff * 0xffff_ffff) by (nonlinear_arith)
        requires
            0 <= w <= 0xffff_ffff,
            0 <= h <= 0xffff_ffff,
    ;
    let n = w * h;
    if n == 0 || n > MAX_PIXELS {
        QoiRejection::InvalidImageDimensions { width, height }
    } else if len as u64 % n != 0 {
        QoiRejection::InvalidImageLength { size: len, width, height }
    } else if len as u64 / n > 255 {
        QoiRejection::InvalidChannels { channels: 255 }
    } else {
        QoiRejection::InvalidChannels { channels: (len as u64 / n) as u8 }
    }
}

/// Encodes the image in `pixels`.
///
/// Succeeds exactly on the buffers described by `qoi_accepts`; every other
/// buffer is turned away with the reason that `qoi_rejection` gives.
pub fn qoi_encode(pixels: &Vec<u8>, width: u32, height: u32) -> (res: Result<Vec<u8>, QoiRejection>)
    ensures
        match res {
            Ok(bytes) => {
                &&& qoi_accepts(pixels@.len(), width, height)
                &&& qoi_encodes_to(pixels@, width, height, bytes@)
            },
            Err(reason) => {
                &&& !qoi_accepts(pixels@.len(), width, height)
                &&& reason == qoi_rejection(pixels@.len(), width, height)
            },
        },
{
    match encode_to_vec(pixels, width, height) {
        Ok(bytes) => Ok(bytes),
        Err(_) => Err(rejection(pixels.len(), width, height)),
    }
}

/// Decodes an encoded image, or returns `None` where there is none to be had.
///
/// No byte of a stream stands for more than 62 pixels, so a stream whose
/// header announces more than 62 pixels for each byte that follows it cannot
/// be complete: it is answered before anything is allocated for it. A decoded
/// image has as many bytes as the header of the stream announces.
pub fn qoi_decode(bytes: &Vec<u8>) -> (res: Option<Vec<u8>>)
    ensures
        match res {
            Some(pixels) => qoi_decodes_to(bytes@, pixels@),
            None => qoi_decode_outcome(bytes@) is None,
        },
{
    if let Some(header) = read_header(bytes) {
        if too_short_for(bytes.len(), &header) {
            return None;
        }
    }
    match decode_to_vec(bytes) {
        Ok(pixels) => Some(pixels),
        Err(_) => None,
    }
}

/// A frame that is encoded and then decoded comes back with the length it
/// had.
pub proof fn lemma_qoi_round_trip_len(
    pixels: Seq<u8>,
    width: u32,
    height: u32,
    encoded: Seq<u8>,
    decoded: Seq<u8>,
)
    requires
        qoi_accepts(pixels.len(), width, height),
        qoi_encodes_to(pixels, width, height, encoded),
        qoi_decodes_to(encoded, decoded),
    ensures
        decoded.len() == pixels.len(),
{
    let n = pixel_count(width, height);
    let header = qoi_header(pixels.len(), width, height);
    assert(header_of(encoded) == Some(header));
    assert(header.pixel_bytes() == n * (header.channels as nat));
    if pixels.len() == 3 * n {
        assert(header.channels == 3);
        assert(n * 3 == 3 * n);
    } else {
        assert(header.channels == 4);
        assert(n * 4 == 4 * n);
    }
}

/// An encoded image has header and end marker, and beyond them at most one
/// byte more than the frame has, for each pixel.
pub proof fn lemma_qoi_encoded_len(pixels: Seq<u8>, width: u32, height: u32, encoded: Seq<u8>)
    requires
        qoi_accepts(pixels.len(), width, height),
        qoi_encodes_to(pixels, width, height, encoded),
    ensures
        22 <= encoded.len() <= 22 + pixels.len() + pixel_count(width, height),
{
    let n = pixel_count(width, height);
    let c = qoi_header(pixels.len(), width, height).channels as nat;
    assert(pixels.len() == c * n);
    assert(n * (c + 1) == c * n + n) by (nonlinear_arith);
}

/// The report of a benchmark in which a decoding that fails is let pass.
pub fn lenient_report(
    encode: Span,
    encoded_size: usize,
    decode: Span,
    decoded_size: Option<usize>,
) -> (report: RoundTrip)
    ensures
        report == (RoundTrip { encode, encoded_size, decode, decoded_size }),
{
    RoundTrip { encode, encoded_size, decode, decoded_size }
}

/// Encodes the frame with `qoi`, decodes what came out, and times both.
///
/// The run succeeds exactly when the frame is encoded. Whether the encoded
/// image decodes again has no bearing on that; where it does, the decoded
/// image is as long as the frame.
pub fn test_qoi(pixels: &Vec<u8>, width: u32, height: u32) -> (res: Result<RoundTrip, QoiRejection>)
    ensures
        match res {
            Ok(report) => {
                &&& report.in_order()
                &&& qoi_accepts(pixels@.len(), width, height)
                &&& report.encoded_size == qoi_encoding(pixels@, width, height).len()
                &&& 22 <= report.encoded_size <= 22 + pixels@.len() + pixel_count(width, height)
                &&& report.decoded_size == qoi_decoded_len(
                    qoi_encoding(pixels@, width, height),
                )
                &&& report.decoded_size matches Some(size) ==> size == pixels@.len()
            },
            Err(reason) => {
                &&& !qoi_accepts(pixels@.len(), width, height)
                &&& reason == qoi_rejection(pixels@.len(), width, height)
            },
        },
{
    let mut watch = Stopwatch::start();
    let begin = watch.read();
    let encoded = match qoi_encode(pixels, width, height) {
        Ok(bytes) => bytes,
        Err(reason) => {
            return Err(reason);
        },
    };
    let encode = Span { begin, end: watch.read() };
    proof {
        lemma_qoi_encoded_len(pixels@, width, height, encoded@);
    }

    let begin = watch.read();
    let decoded_size = match qoi_decode(&encoded) {
        Some(decoded) => {
            proof {
                lemma_qoi_round_trip_len(pixels@, width, height, encoded@, decoded@);
            }
            Some(decoded.len())
        },
        None => None,
    };
    let decode = Span { begin, end: watch.read() };
    Ok(lenient_report(encode, encoded.len(), decode, decoded_size))
}

} // verus!
