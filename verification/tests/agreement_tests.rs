use codec_bench::header::read_header;
use codec_bench::header::too_short_for;
use codec_bench::header::Header;
use codec_bench::qoi_bench::accepts;
use codec_bench::qoi_bench::qoi_decode;
use codec_bench::qoi_bench::qoi_encode;
use codec_bench::rapid_bench::holds_rgba;
use codec_bench::rapid_bench::rapid_qoi_decode;
use codec_bench::rapid_bench::rapid_qoi_encode;

fn sample_bytes(len: usize, seed: u32) -> Vec<u8> {
    let mut state = seed | 1;
    let mut bytes = Vec::new();
    for i in 0..len {
        state ^= state << 13;
        state ^= state >> 17;
        state ^= state << 5;
        bytes.push(if i % 9 < 4 { (state >> 7) as u8 } else { (i / 5) as u8 });
    }
    bytes
}

#[test]
fn qoi_is_said_to_accept_exactly_what_the_codec_encodes() {
    for width in 0..6u32 {
        for height in 0..6u32 {
            for len in 0..110usize {
                let pixels = sample_bytes(len, 1 + width + 7 * height);
                let direct = qoi::encode_to_vec(&pixels, width, height);
                assert_eq!(accepts(len, width, height), direct.is_ok());
                assert_eq!(qoi_encode(&pixels, width, height).ok(), direct.ok());
            }
        }
    }
}

#[test]
fn rapid_is_said_to_take_exactly_what_the_codec_encodes() {
    for width in 0..6u32 {
        for height in 0..6u32 {
            for len in 0..110usize {
                let pixels = sample_bytes(len, 3 + width + 5 * height);
                let qoi = rapid_qoi::Qoi { width, height, colors: rapid_qoi::Colors::SrgbLinA };
                let direct = qoi.encode_alloc(&pixels);
                assert_eq!(holds_rgba(len, width, height), direct.is_ok());
                assert_eq!(rapid_qoi_encode(&pixels, width, height).ok(), direct.ok());
            }
        }
    }
}

#[test]
fn encoded_streams_open_with_the_header_of_the_image() {
    for width in 1..9u32 {
        for height in 1..9u32 {
            for channels in [3u8, 4] {
                let len = (width * height) as usize * channels as usize;
                let pixels = sample_bytes(len, width * 31 + height);
                let encoded = qoi_encode(&pixels, width, height).unwrap();
                assert_eq!(
                    read_header(&encoded),
                    Some(Header { width, height, channels, colorspace: 0 })
                );
                if channels == 4 {
                    let encoded = rapid_qoi_encode(&pixels, width, height).unwrap();
                    assert_eq!(
                        read_header(&encoded),
                        Some(Header { width, height, channels: 4, colorspace: 0 })
                    );
                }
            }
        }
    }
}

#[test]
fn encoded_streams_stay_within_their_length_bounds() {
    for width in 1..9u32 {
        for height in 1..9u32 {
            for channels in [3usize, 4] {
                let pixels_n = (width * height) as usize;
                let pixels = sample_bytes(pixels_n * channels, width + 13 * height);
                let encoded = qoi_encode(&pixels, width, height).unwrap();
                assert!(encoded.len() >= 22);
                assert!(encoded.len() <= 22 + pixels_n * (channels + 1));
                if channels == 4 {
                    let encoded = rapid_qoi_encode(&pixels, width, height).unwrap();
                    assert!(encoded.len() >= 22);
                    assert!(encoded.len() <= 22 + pixels_n * 5);
                }
            }
        }
    }
}

#[test]
fn round_trips_give_back_every_sample() {
    for width in 1..9u32 {
        for height in 1..9u32 {
            let pixels = sample_bytes((width * height * 4) as usize, 17 * width + height);
            let encoded = qoi_encode(&pixels, width, height).unwrap();
            assert_eq!(qoi_decode(&encoded), Some(pixels.clone()));
            let encoded = rapid_qoi_encode(&pixels, width, height).unwrap();
            assert_eq!(rapid_qoi_decode(&encoded), Ok(pixels.clone()));
            let rgb = sample_bytes((width * height * 3) as usize, 19 * width + height);
            let encoded = qoi_encode(&rgb, width, height).unwrap();
            assert_eq!(qoi_decode(&encoded), Some(rgb));
        }
    }
}

#[test]
fn the_two_codecs_read_each_other() {
    let pixels = sample_bytes(24 * 10 * 4, 99);
    let by_qoi = qoi_encode(&pixels, 24, 10).unwrap();
    let by_rapid = rapid_qoi_encode(&pixels, 24, 10).unwrap();
    assert_eq!(rapid_qoi_decode(&by_qoi), Ok(pixels.clone()));
    assert_eq!(qoi_decode(&by_rapid), Some(pixels));
}

#[test]
fn decoding_agrees_with_the_codecs_on_damaged_streams() {
    let pixels = sample_bytes(12 * 12 * 4, 5);
    let sound = qoi_encode(&pixels, 12, 12).unwrap();
    for at in 0..sound.len() {
        for flip in [0x01u8, 0x80, 0xff] {
            let mut damaged = sound.clone();
            damaged[at] ^= flip;
            let announced = read_header(&damaged);
            let hopeless = match announced {
                Some(header) => too_short_for(damaged.len(), &header),
                None => false,
            };
            let modest = match announced {
                Some(header) => header.raw_len() < 1 << 24,
                None => true,
            };
            let ours = qoi_decode(&damaged);
            let theirs = rapid_qoi_decode(&damaged);
            if let Some(decoded) = &ours {
                assert_eq!(decoded.len() as u128, announced.unwrap().raw_len());
            }
            if let Ok(decoded) = &theirs {
                assert_eq!(decoded.len() as u128, announced.unwrap().raw_len());
            }
            if hopeless {
                assert_eq!(ours, None);
                assert!(theirs.is_err());
            }
            if modest {
                assert_eq!(ours, qoi::decode_to_vec(&damaged).ok().map(|(_, decoded)| decoded));
                assert_eq!(
                    theirs.ok(),
                    rapid_qoi::Qoi::decode_alloc(&damaged).ok().map(|(_, decoded)| decoded)
                );
            }
        }
    }
}

#[test]
fn cut_streams_are_refused_as_the_codecs_refuse_them() {
    let pixels = sample_bytes(10 * 10 * 4, 11);
    let sound = rapid_qoi_encode(&pixels, 10, 10).unwrap();
    for keep in 0..sound.len() {
        let cut = sound[..keep].to_vec();
        assert_eq!(qoi_decode(&cut), qoi::decode_to_vec(&cut).ok().map(|(_, decoded)| decoded));
        assert_eq!(
            rapid_qoi_decode(&cut).ok(),
            rapid_qoi::Qoi::decode_alloc(&cut).ok().map(|(_, decoded)| decoded)
        );
    }
}
