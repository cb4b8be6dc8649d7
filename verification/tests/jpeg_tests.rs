use codec_bench::clock::Span;
use codec_bench::jpeg_bench::jpeg_job;
use codec_bench::jpeg_bench::jpeg_line;
use codec_bench::jpeg_bench::JpegJob;
use codec_bench::jpeg_bench::JpegRejection;
use codec_bench::jpeg_bench::PixelFormat;
use codec_bench::jpeg_bench::Subsamp;
use codec_bench::jpeg_bench::BYTES_PER_PIXEL;
use codec_bench::jpeg_bench::JPEG_LABEL;
use codec_bench::jpeg_bench::JPEG_QUALITY;

#[test]
fn full_hd_frame_is_described_with_packed_rows() {
    let job = jpeg_job(1920 * 1080 * 4, 1920, 1080).unwrap();
    assert_eq!(job, JpegJob { width: 1920, height: 1080, pitch: 7680, format: PixelFormat::Bgra, quality: 100, subsamp: Subsamp::Sub2x2 });
}

#[test]
fn stride_follows_the_width() {
    let job = jpeg_job(640 * 480 * 4, 640, 480).unwrap();
    assert_eq!(job.pitch, 640 * BYTES_PER_PIXEL as usize);
    assert_eq!(job.quality, JPEG_QUALITY);
}

#[test]
fn longer_buffer_is_accepted() {
    let job = jpeg_job(100, 2, 3).unwrap();
    assert_eq!(job, JpegJob { width: 2, height: 3, pitch: 8, format: PixelFormat::Bgra, quality: 100, subsamp: Subsamp::Sub2x2 });
}

#[test]
fn buffer_one_byte_short_is_refused() {
    assert_eq!(
        jpeg_job(1920 * 1080 * 4 - 1, 1920, 1080),
        Err(JpegRejection::BufferTooSmall { needed: 8_294_400, len: 8_294_399 })
    );
}

#[test]
fn empty_buffer_is_refused_for_a_real_image() {
    assert_eq!(jpeg_job(0, 1, 1), Err(JpegRejection::BufferTooSmall { needed: 4, len: 0 }));
}

#[test]
fn image_without_rows_needs_no_bytes() {
    assert_eq!(jpeg_job(0, 1920, 0), Ok(JpegJob { width: 1920, height: 0, pitch: 7680, format: PixelFormat::Bgra, quality: 100, subsamp: Subsamp::Sub2x2 }));
    assert_eq!(jpeg_job(0, 0, 1080), Ok(JpegJob { width: 0, height: 1080, pitch: 0, format: PixelFormat::Bgra, quality: 100, subsamp: Subsamp::Sub2x2 }));
}

#[test]
fn row_longer_than_the_encoder_counts_is_refused() {
    assert_eq!(jpeg_job(16, 536_870_912, 1), Err(JpegRejection::DimensionTooLarge));
    assert_eq!(jpeg_job(16, u32::MAX, 0), Err(JpegRejection::DimensionTooLarge));
}

#[test]
fn widest_row_the_encoder_counts_is_measured_against_the_buffer() {
    assert_eq!(
        jpeg_job(16, 536_870_911, 1),
        Err(JpegRejection::BufferTooSmall { needed: 2_147_483_644, len: 16 })
    );
}

#[test]
fn height_beyond_the_encoder_is_refused() {
    assert_eq!(jpeg_job(16, 1, 2_147_483_648), Err(JpegRejection::DimensionTooLarge));
    assert_eq!(
        jpeg_job(16, 1, 2_147_483_647),
        Err(JpegRejection::BufferTooSmall { needed: 8_589_934_588, len: 16 })
    );
}

#[test]
fn report_line_names_time_and_size() {
    let span = Span { begin: 1_000_000, end: 18_400_000 };
    assert_eq!(jpeg_line(JPEG_LABEL, span, 1_234_567), "test_jpeg encode time: 17, size: 1234567");
}
