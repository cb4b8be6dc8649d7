//! The lossless benchmark on the `rapid_qoi` codec.
//!
//! The frame is handed over as RGBA with sRGB colours and linear alpha, so the
//! codec reads four bytes per pixel and ignores what lies beyond
//! `width * height * 4` bytes.

use crate::clock::Span;
use crate::clock::Stopwatch;
use crate::header::header_of;
use crate::header::ends_too_early;
use crate::header::read_header;
use crate::header::stream_len_ok;
use crate::header::too_short_for;
use crate::header::Header;
use crate::report::RoundTrip;
use vstd::prelude::*;

verus! {

/// The label under which this benchmark reports.
pub const RAPID_LABEL: &'static str = "test_rapid_qoi";

/// Why `rapid_qoi` did not encode.
#[derive(Clone, Copy, Debug, PartialEq, Eq, Structural)]
pub enum EncodeFailure {
    /// The buffer holds fewer bytes than the image needs.
    NotEnoughPixelData,
    /// The output buffer cannot hold the encoded image.
    OutputIsTooSmall,
}

/// Why an encoded image was not decoded.
#[derive(Clone, Copy, Debug, PartialEq, Eq, Structural)]
pub enum DecodeFailure {
    /// The stream ends before the image is complete.
    NotEnoughData,
    /// The stream does not open with `qoif`.
    InvalidMagic,
    /// The header names a number of channels other than 3 or 4.
    InvalidChannelsValue,
    /// The header names a colour space other than 0 or 1.
    InvalidColorSpaceValue,
    /// The output buffer cannot hold the decoded image.
    OutputIsTooSmall,
    /// The header announces more bytes than one allocation can hold.
    ImageTooLarge,
}

/// Why the benchmark stopped.
#[derive(Clone, Copy, Debug, PartialEq, Eq, Structural)]
pub enum RapidFailure {
    /// Nothing was encoded.
    Encode(EncodeFailure),
    /// The image was encoded, with these measurements, and did not decode.
    Decode { encode: Span, encoded_size: usize, failure: DecodeFailure },
}

/// The bytes that `rapid_qoi` writes for an RGBA image of `width` by `height`
/// pixels that starts at the front of `pixels`.
pub uninterp spec fn rapid_qoi_encoding(pixels: Seq<u8>, width: u32, height: u32) -> Seq<u8>;

/// What `rapid_qoi` makes of an encoded image: the raw pixels, or the reason
/// why there are none.
pub uninterp spec fn rapid_qoi_decoding(bytes: Seq<u8>) -> Result<Seq<u8>, DecodeFailure>;

/// Number of bytes in a raw RGBA image.
pub open spec fn rgba_len(width: u32, height: u32) -> nat {
    (width as nat) * (height as nat) * 4
}

/// The header of an RGBA image with sRGB colours and linear alpha.
pub open spec fn rgba_header(width: u32, height: u32) -> Header {
    Header { width, height, channels: 4, colorspace: 0 }
}

/// `encoded` is what the codec writes for `pixels`: the encoding, opening
/// with the header of the image.
pub open spec fn rapid_encodes_to(
    pixels: Seq<u8>,
    width: u32,
    height: u32,
    encoded: Seq<u8>,
) -> bool {
    &&& encoded == rapid_qoi_encoding(pixels, width, height)
    &&& header_of(encoded) == Some(rgba_header(width, height))
    &&& stream_len_ok(encoded.len(), (width as nat) * (height as nat), 4)
}

/// `decoded` is what decoding `encoded` gives: the decoding, as long as the
/// header of `encoded` announces.
pub open spec fn rapid_decodes_to(encoded: Seq<u8>, decoded: Seq<u8>) -> bool {
    &&& rapid_decode_outcome(encoded) == Ok::<Seq<u8>, DecodeFailure>(decoded)
    &&& header_of(encoded) matches Some(header) && decoded.len() == header.pixel_bytes()
}

/// Whether `bytes` opens with a header that announces an image too large for
/// one allocation.
pub open spec fn announces_too_much(bytes: Seq<u8>) -> bool {
    header_of(bytes) matches Some(header) && header.pixel_bytes() > isize::MAX
}

/// What decoding `bytes` gives. A stream that announces an image too large
/// to allocate is turned away, and one that cannot hold the image it
/// announces lacks data; on every other stream the codec decides.
pub open spec fn rapid_decode_outcome(bytes: Seq<u8>) -> Result<Seq<u8>, DecodeFailure> {
    if announces_too_much(bytes) {
        Err(DecodeFailure::ImageTooLarge)
    } else if ends_too_early(bytes) {
        Err(DecodeFailure::NotEnoughData)
    } else {
        rapid_qoi_decoding(bytes)
    }
}

/// `rapid_qoi::Qoi::encode_alloc` on a descriptor with the colours
/// `SrgbLinA`. Given at least `width * height * 4` bytes it returns the
/// encoded image, which opens with the header of that descriptor: the magic,
/// both dimensions big-endian, 4 channels, colour space 0. The only error it
/// can return, `NotEnoughPixelData`, is for a shorter buffer. The image is
/// written into a buffer of `encoded_size_limit()` bytes, five per pixel and
/// 22 for header and end marker, and cut to what was written.
#[verifier::external_body]
fn encode_alloc(pixels: &Vec<u8>, width: u32, height: u32) -> (res: Result<Vec<u8>, EncodeFailure>)
    requires
        rgba_len(width, height) <= pixels@.len(),
    ensures
        res is Ok,
        res matches Ok(bytes) ==> bytes@ == rapid_qoi_encoding(pixels@, width, height),
        res matches Ok(bytes) ==> header_of(bytes@) == Some(rgba_header(width, height)),
        res matches Ok(bytes) ==> stream_len_ok(bytes@.len(), (width as nat) * (height as nat), 4),
{
    let qoi = rapid_qoi::Qoi { width, height, colors: rapid_qoi::Colors::SrgbLinA };
    match qoi.encode_alloc(pixels) {
        Ok(bytes) => Ok(bytes),
        Err(rapid_qoi::EncodeError::NotEnoughPixelData) => Err(EncodeFailure::NotEnoughPixelData),
        Err(rapid_qoi::EncodeError::OutputIsTooSmall) => Err(EncodeFailure::OutputIsTooSmall),
    }
}

/// `rapid_qoi::Qoi::decode_alloc`. It multiplies out the size that the header
/// announces and allocates as much, so that size has to fit one allocation.
/// When it succeeds the stream opened with a well-formed header and the image
/// returned has exactly the announced number of bytes.
#[verifier::external_body]
fn decode_alloc(bytes: &Vec<u8>) -> (res: Result<Vec<u8>, DecodeFailure>)
    requires
        !announces_too_much(bytes@),
    ensures
        res is Ok <==> rapid_qoi_decoding(bytes@) is Ok,
        res matches Ok(pixels) ==> rapid_qoi_decoding(bytes@)->Ok_0 == pixels@,
        res matches Err(failure) ==> rapid_qoi_decoding(bytes@)->Err_0 == failure,
        res matches Ok(pixels) ==> header_of(bytes@) is Some,
        res matches Ok(pixels) ==> pixels@.len() == header_of(bytes@)->0.pixel_bytes(),
{
    match rapid_qoi::Qoi::decode_alloc(bytes) {
        Ok((_, pixels)) => Ok(pixels),
        Err(rapid_qoi::DecodeError::NotEnoughData) => Err(DecodeFailure::NotEnoughData),
        Err(rapid_qoi::DecodeError::InvalidMagic) => Err(DecodeFailure::InvalidMagic),
        Err(rapid_qoi::DecodeError::InvalidChannelsValue) => Err(
            DecodeFailure::InvalidChannelsValue,
        ),
        Err(rapid_qoi::DecodeError::InvalidColorSpaceValue) => Err(
            DecodeFailure::InvalidColorSpaceValue,
        ),
        Err(rapid_qoi::DecodeError::OutputIsTooSmall) => Err(DecodeFailure::OutputIsTooSmall),
    }
}

/// Whether `len` bytes are enough for an RGBA image of `width` by `height`.
pub fn holds_rgba(len: usize, width: u32, height: u32) -> (enough: bool)
    ensures
        enough == (rgba_len(width, height) <= len),
{
    let w = width as u128;
    let h = height as u128;
    assert(w * h <= 0xffff_ffff * 0xffff_ffff) by (nonlinear_arith)
        requires
            0 <= w <= 0xffff_ffff,
            0 <= h <= 0xffff_ffff,
    ;
    w * h * 4 <= len as u128
}

/// Encodes the RGBA image at the front of `pixels`.
///
/// Succeeds exactly when `pixels` holds at least `width * height * 4` bytes.
pub fn rapid_qoi_encode(pixels: &Vec<u8>, width: u32, height: u32) -> (res: Result<
    Vec<u8>,
    EncodeFailure,
>)
    ensures
        match res {
            Ok(bytes) => {
                &&& rgba_len(width, height) <= pixels@.len()
                &&& rapid_encodes_to(pixels@, width, height, bytes@)
            },
            Err(failure) => {
                &&& rgba_len(width, height) > pixels@.len()
                &&& failure == EncodeFailure::NotEnoughPixelData
            },
        },
{
    if !holds_rgba(pixels.len(), width, height) {
        return Err(EncodeFailure::NotEnoughPixelData);
    }
    encode_alloc(pixels, width, height)
}

/// Decodes an encoded image.
///
/// A stream whose header announces more than `isize::MAX` bytes is turned
/// away as `ImageTooLarge`. No byte of a stream stands for more than 62
/// pixels, so a stream whose header announces more than 62 pixels for each
/// byte that follows it cannot be complete: it is answered with
/// `NotEnoughData` before anything is allocated for it. A decoded image has
/// as many bytes as the header of the stream announces.
pub fn rapid_qoi_decode(bytes: &Vec<u8>) -> (res: Result<Vec<u8>, DecodeFailure>)
    ensures
        match res {
            Ok(pixels) => rapid_decodes_to(bytes@, pixels@),
            Err(failure) => rapid_decode_outcome(bytes@) == Err::<Seq<u8>, DecodeFailure>(
                failure,
            ),
        },
{
    if let Some(header) = read_header(bytes) {
        if header.raw_len() > isize::MAX as u128 {
            return Err(DecodeFailure::ImageTooLarge);
        }
        if too_short_for(bytes.len(), &header) {
            return Err(DecodeFailure::NotEnoughData);
        }
    }
    decode_alloc(bytes)
}

/// A frame of exactly `width * height * 4` bytes that is encoded and then
/// decoded comes back with the length it had.
pub proof fn lemma_rapid_round_trip_len(
    pixels: Seq<u8>,
    width: u32,
    height: u32,
    encoded: Seq<u8>,
    decoded: Seq<u8>,
)
    requires
        pixels.len() == rgba_len(width, height),
        rapid_encodes_to(pixels, width, height, encoded),
        rapid_decodes_to(encoded, decoded),
    ensures
        decoded.len() == pixels.len(),
{
}

/// The report of a benchmark in which a decoding that fails ends the run.
pub fn strict_report(
    encode: Span,
    encoded_size: usize,
    decode: Span,
    decoded: Result<usize, DecodeFailure>,
) -> (res: Result<RoundTrip, RapidFailure>)
    ensures
        match decoded {
            Ok(size) => res == Ok::<RoundTrip, RapidFailure>(
                RoundTrip { encode, encoded_size, decode, decoded_size: Some(size) },
            ),
            Err(failure) => res == Err::<RoundTrip, RapidFailure>(
                RapidFailure::Decode { encode, encoded_size, failure },
            ),
        },
{
    match decoded {
        Ok(size) => Ok(RoundTrip { encode, encoded_size, decode, decoded_size: Some(size) }),
        Err(failure) => Err(RapidFailure::Decode { encode, encoded_size, failure }),
    }
}

/// Encodes the frame with `rapid_qoi`, decodes what came out, and times both.
///
/// The run succeeds when the frame holds `width * height * 4` bytes and the
/// encoded image decodes again; the decoded image then has exactly
/// `width * height * 4` bytes.
pub fn test_rapid_qoi(pixels: &Vec<u8>, width: u32, height: u32) -> (res: Result<
    RoundTrip,
    RapidFailure,
>)
    ensures
        match res {
            Ok(report) => {
                &&& report.in_order()
                &&& rgba_len(width, height) <= pixels@.len()
                &&& report.encoded_size == rapid_qoi_encoding(pixels@, width, height).len()
                &&& stream_len_ok(report.encoded_size as nat, (width as nat) * (height as nat), 4)
                &&& rapid_decode_outcome(rapid_qoi_encoding(pixels@, width, height)) is Ok
                &&& report.decoded_size == Some(rgba_len(width, height) as usize)
            },
            Err(RapidFailure::Encode(failure)) => {
                &&& rgba_len(width, height) > pixels@.len()
                &&& failure == EncodeFailure::NotEnoughPixelData
            },
            Err(RapidFailure::Decode { encode, encoded_size, failure }) => {
                &&& encode.ordered()
                &&& rgba_len(width, height) <= pixels@.len()
                &&& encoded_size == rapid_qoi_encoding(pixels@, width, height).len()
                &&& rapid_decode_outcome(rapid_qoi_encoding(pixels@, width, height)) == Err::<
                    Seq<u8>,
                    DecodeFailure,
                >(failure)
            },
        },
{
    let mut watch = Stopwatch::start();
    let begin = watch.read();
    let encoded = match rapid_qoi_encode(pixels, width, height) {
        Ok(bytes) => bytes,
        Err(failure) => {
            return Err(RapidFailure::Encode(failure));
        },
    };
    let encode = Span { begin, end: watch.read() };

    let begin = watch.read();
    let decoded = match rapid_qoi_decode(&encoded) {
        Ok(pixels) => Ok(pixels.len()),
        Err(failure) => Err(failure),
    };
    let decode = Span { begin, end: watch.read() };
    strict_report(encode, encoded.len(), decode, decoded)
}

} // verus!
