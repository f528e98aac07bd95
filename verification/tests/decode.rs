use qoi_decoder::color::color::RGBA;
use qoi_decoder::encoding::decoder::{DecodePhase, Decoder};
use qoi_decoder::encoding::error::DecodeError;
use qoi_decoder::encoding::source::ByteSource;
use qoi_decoder::structure::qoi_header::QOIHeader;

const END: [u8; 8] = [0, 0, 0, 0, 0, 0, 0, 1];

fn header(width: u32, height: u32, channels: u8, color_space: u8) -> Vec<u8> {
    QOIHeader { magic: [b'q', b'o', b'i', b'f'], width, height, channels, color_space }.to_bytes()
}

fn stream(width: u32, height: u32, channels: u8, ops: &[u8]) -> Vec<u8> {
    let mut bytes = header(width, height, channels, 0);
    bytes.extend_from_slice(ops);
    bytes.extend_from_slice(&END);
    bytes
}

fn decode(bytes: Vec<u8>) -> Result<Vec<RGBA>, DecodeError> {
    let mut source = ByteSource::new(bytes);
    Decoder::new().decode_buffer(&mut source)
}

fn px(r: u8, g: u8, b: u8, a: u8) -> RGBA {
    RGBA { r, g, b, a }
}

#[test]
fn decodes_one_literal_rgba_pixel() {
    let bytes = stream(1, 1, 4, &[0xFF, 10, 20, 30, 40]);
    let mut source = ByteSource::new(bytes);
    let mut decoder = Decoder::new();
    let pixels = decoder.decode_buffer(&mut source);
    assert_eq!(pixels, Ok(vec![px(10, 20, 30, 40)]));
    let image = decoder.image();
    assert_eq!(image.header.width, 1);
    assert_eq!(image.header.height, 1);
    assert_eq!(image.header.channels, 4);
    assert_eq!(image.header.color_space, 0);
    assert_eq!(image.pixels, vec![px(10, 20, 30, 40)]);
    assert!(image.is_complete());
    assert_eq!(source.remaining(), 0);
    assert_eq!(decoder.phase(), DecodePhase::Done);
}

#[test]
fn decodes_literal_rgb_followed_by_a_run() {
    let pixels = decode(stream(2, 1, 3, &[0xFE, 5, 5, 5, 0xC0]));
    assert_eq!(pixels, Ok(vec![px(5, 5, 5, 255), px(5, 5, 5, 255)]));
}

#[test]
fn decodes_an_empty_pixel_stream() {
    let bytes = stream(0, 0, 3, &[]);
    let mut source = ByteSource::new(bytes);
    let mut decoder = Decoder::new();
    assert_eq!(decoder.decode_buffer(&mut source), Ok(Vec::new()));
    assert_eq!(decoder.image().header, QOIHeader::new());
    assert_eq!(source.remaining(), 0);
}

#[test]
fn literal_rgb_inherits_alpha_from_the_previous_pixel() {
    let pixels = decode(stream(2, 1, 4, &[0xFF, 1, 2, 3, 77, 0xFE, 9, 8, 7]));
    assert_eq!(pixels, Ok(vec![px(1, 2, 3, 77), px(9, 8, 7, 77)]));
}

#[test]
fn first_literal_rgb_is_opaque() {
    assert_eq!(decode(stream(1, 1, 3, &[0xFE, 9, 8, 7])), Ok(vec![px(9, 8, 7, 255)]));
}

#[test]
fn run_expands_to_payload_plus_one_copies() {
    let pixels = decode(stream(6, 1, 4, &[0xFF, 10, 20, 30, 40, 0xC4])).unwrap();
    assert_eq!(pixels.len(), 6);
    assert_eq!(pixels, vec![px(10, 20, 30, 40); 6]);
}

#[test]
fn longest_run_has_62_pixels() {
    let pixels = decode(stream(63, 1, 4, &[0xFF, 1, 1, 1, 1, 0xFD])).unwrap();
    assert_eq!(pixels, vec![px(1, 1, 1, 1); 63]);
}

#[test]
fn run_before_any_pixel_repeats_opaque_black() {
    assert_eq!(decode(stream(2, 1, 4, &[0xC1])), Ok(vec![px(0, 0, 0, 255); 2]));
}

#[test]
fn small_delta_builds_on_the_previous_pixel() {
    let pixels = decode(stream(2, 1, 4, &[0xFF, 10, 10, 10, 255, 0b01_11_00_10]));
    assert_eq!(pixels, Ok(vec![px(10, 10, 10, 255), px(11, 8, 10, 255)]));
}

#[test]
fn small_delta_wraps_around() {
    let pixels = decode(stream(2, 1, 4, &[0xFF, 0, 255, 7, 3, 0b01_00_11_10]));
    assert_eq!(pixels, Ok(vec![px(0, 255, 7, 3), px(254, 0, 7, 3)]));
}

#[test]
fn small_delta_before_any_pixel_builds_on_opaque_black() {
    assert_eq!(decode(stream(1, 1, 4, &[0b01_11_11_11])), Ok(vec![px(1, 1, 1, 255)]));
}

#[test]
fn luma_delta_uses_the_byte_after_the_tag() {
    let pixels = decode(stream(3, 1, 4, &[0xFF, 100, 100, 100, 255, 0xA5, 0xA4, 0xC0]));
    assert_eq!(
        pixels,
        Ok(vec![px(100, 100, 100, 255), px(107, 105, 101, 255), px(107, 105, 101, 255)])
    );
}

#[test]
fn luma_delta_wraps_around() {
    let pixels = decode(stream(2, 1, 4, &[0xFF, 250, 250, 250, 7, 0xBF, 0xFF]));
    assert_eq!(pixels, Ok(vec![px(250, 250, 250, 7), px(32, 25, 32, 7)]));
}

#[test]
fn cached_index_repeats_a_seen_pixel() {
    // (10,20,30,40) hashes to slot 12
    let pixels = decode(stream(3, 1, 4, &[0xFF, 10, 20, 30, 40, 0xFE, 1, 1, 1, 12]));
    assert_eq!(pixels, Ok(vec![px(10, 20, 30, 40), px(1, 1, 1, 40), px(10, 20, 30, 40)]));
}

#[test]
fn cached_index_of_an_empty_slot_fails() {
    assert_eq!(decode(stream(1, 1, 4, &[5])), Err(DecodeError::InvalidCacheReference));
    assert_eq!(
        decode(stream(2, 1, 4, &[0xFF, 10, 20, 30, 40, 13])),
        Err(DecodeError::InvalidCacheReference)
    );
}

#[test]
fn pixels_of_delta_opcodes_enter_the_cache() {
    // (11,21,31,40) hashes to slot 27
    let pixels = decode(stream(3, 1, 4, &[0xFF, 10, 20, 30, 40, 0b01_11_11_11, 0xFE, 0, 0, 0, 27]));
    assert_eq!(
        pixels,
        Ok(vec![px(10, 20, 30, 40), px(11, 21, 31, 40), px(0, 0, 0, 40), px(11, 21, 31, 40)])
    );
}

#[test]
fn pixels_of_luma_opcodes_enter_the_cache() {
    // (107,105,101,255) hashes to slot 6: 321 + 525 + 707 + 2805 = 4358 = 68 * 64 + 6
    let pixels =
        decode(stream(4, 1, 4, &[0xFF, 100, 100, 100, 255, 0xA5, 0xA4, 0xFE, 0, 0, 0, 6]));
    assert_eq!(
        pixels,
        Ok(vec![
            px(100, 100, 100, 255),
            px(107, 105, 101, 255),
            px(0, 0, 0, 255),
            px(107, 105, 101, 255)
        ])
    );
}

#[test]
fn pixels_of_run_opcodes_enter_the_cache() {
    // a run before any pixel repeats opaque black, which hashes to slot 53
    let pixels = decode(stream(3, 1, 4, &[0xC0, 0xFE, 1, 2, 3, 53]));
    assert_eq!(pixels, Ok(vec![px(0, 0, 0, 255), px(1, 2, 3, 255), px(0, 0, 0, 255)]));
}

#[test]
fn pixels_of_index_opcodes_enter_the_cache() {
    let pixels = decode(stream(4, 1, 4, &[0xFF, 10, 20, 30, 40, 0xFE, 1, 1, 1, 12, 12]));
    assert_eq!(
        pixels,
        Ok(vec![px(10, 20, 30, 40), px(1, 1, 1, 40), px(10, 20, 30, 40), px(10, 20, 30, 40)])
    );
}

#[test]
fn malformed_header_fails_the_decode() {
    let mut bytes = header(1, 1, 5, 0);
    bytes.extend_from_slice(&[0xFF, 1, 2, 3, 4]);
    bytes.extend_from_slice(&END);
    assert_eq!(decode(bytes), Err(DecodeError::MalformedHeader));
    let mut bytes = header(1, 1, 4, 2);
    bytes.extend_from_slice(&END);
    assert_eq!(decode(bytes), Err(DecodeError::MalformedHeader));
}

#[test]
fn empty_input_is_truncated() {
    assert_eq!(decode(Vec::new()), Err(DecodeError::TruncatedStream));
}

#[test]
fn header_alone_is_truncated() {
    assert_eq!(decode(header(1, 1, 4, 0)), Err(DecodeError::TruncatedStream));
}

#[test]
fn missing_end_marker_is_truncated() {
    let mut bytes = header(1, 1, 4, 0);
    bytes.extend_from_slice(&[0xFF, 10, 20, 30, 40]);
    assert_eq!(decode(bytes.clone()), Err(DecodeError::TruncatedStream));
    bytes.extend_from_slice(&[0, 0, 0, 0, 0, 0, 0]);
    assert_eq!(decode(bytes.clone()), Err(DecodeError::TruncatedStream));
    bytes.push(1);
    assert_eq!(decode(bytes), Ok(vec![px(10, 20, 30, 40)]));
}

#[test]
fn every_proper_prefix_of_a_stream_is_truncated() {
    let bytes = stream(3, 1, 4, &[0xFF, 10, 20, 30, 40, 0xA5, 0xA4, 0xC0]);
    for len in 0..bytes.len() {
        assert_eq!(decode(bytes[..len].to_vec()), Err(DecodeError::TruncatedStream));
    }
    assert!(decode(bytes).is_ok());
}

#[test]
fn failed_decode_leaves_an_empty_image() {
    let mut source = ByteSource::new(stream(2, 2, 4, &[0xFF, 10, 20, 30, 40, 13]));
    let mut decoder = Decoder::new();
    assert_eq!(decoder.decode_buffer(&mut source), Err(DecodeError::InvalidCacheReference));
    assert_eq!(decoder.image().header, QOIHeader::new());
    assert!(decoder.image().pixels.is_empty());
    assert_eq!(decoder.phase(), DecodePhase::Error);
}

#[test]
fn failed_decode_leaves_the_reader_at_the_failing_read() {
    // the header and the window are read, then one byte more for the tag
    let mut source = ByteSource::new(stream(1, 1, 4, &[5]));
    assert_eq!(Decoder::new().decode_buffer(&mut source), Err(DecodeError::InvalidCacheReference));
    assert_eq!(source.remaining(), 0);
    // the literal's four operands cannot be read: one is missing
    let mut bytes = header(1, 1, 4, 0);
    bytes.extend_from_slice(&[0xFF, 1, 2, 3, 4, 0, 0, 0, 0, 0, 0, 0]);
    let mut source = ByteSource::new(bytes);
    assert_eq!(Decoder::new().decode_buffer(&mut source), Err(DecodeError::TruncatedStream));
    assert_eq!(source.remaining(), 3);
    // a bad channel count stops the decode behind the thirteenth byte
    let mut bytes = header(1, 1, 7, 0);
    bytes.extend_from_slice(&END);
    let mut source = ByteSource::new(bytes);
    assert_eq!(Decoder::new().decode_buffer(&mut source), Err(DecodeError::MalformedHeader));
    assert_eq!(source.remaining(), 9);
}

#[test]
fn reader_stops_behind_the_end_marker() {
    let mut bytes = stream(1, 1, 4, &[0xFF, 10, 20, 30, 40]);
    bytes.extend_from_slice(&[42, 43, 44]);
    let mut source = ByteSource::new(bytes);
    let mut decoder = Decoder::new();
    assert_eq!(decoder.decode_buffer(&mut source), Ok(vec![px(10, 20, 30, 40)]));
    assert_eq!(source.remaining(), 3);
    assert_eq!(source.read_u8(), Ok(42));
}

#[test]
fn each_decode_starts_afresh() {
    let mut decoder = Decoder::new();
    let mut first = ByteSource::new(stream(1, 1, 4, &[0xFF, 10, 20, 30, 40]));
    assert_eq!(decoder.decode_buffer(&mut first), Ok(vec![px(10, 20, 30, 40)]));
    // slot 12 was filled by the first decode; the second must not see it
    let mut second = ByteSource::new(stream(1, 1, 4, &[12]));
    assert_eq!(decoder.decode_buffer(&mut second), Err(DecodeError::InvalidCacheReference));
    assert_eq!(decoder.phase(), DecodePhase::Error);
    // nor the pixels or the last pixel of the first
    let mut third = ByteSource::new(stream(7, 5, 3, &[0xFE, 1, 2, 3]));
    assert_eq!(decoder.decode_buffer(&mut third), Ok(vec![px(1, 2, 3, 255)]));
    assert_eq!(decoder.image().pixels, vec![px(1, 2, 3, 255)]);
    assert_eq!(decoder.image().header.width, 7);
    assert_eq!(decoder.image().header.height, 5);
    assert!(!decoder.image().is_complete());
    assert_eq!(decoder.phase(), DecodePhase::Done);
}

#[test]
fn new_decoder_holds_an_empty_image() {
    let decoder = Decoder::new();
    assert_eq!(decoder.image().header, QOIHeader::new());
    assert!(decoder.image().pixels.is_empty());
    assert_eq!(decoder.phase(), DecodePhase::AwaitingHeader);
}

#[test]
fn no_stream_fails_with_unknown_opcode() {
    for tag in 0..=255u8 {
        let result = decode(stream(1, 1, 4, &[tag, 1, 2, 3, 4]));
        assert_ne!(result, Err(DecodeError::UnknownOpcode));
    }
}

#[test]
fn end_marker_is_recognised_only_at_an_opcode_boundary() {
    // the operands of a literal may hold the marker's bytes
    let pixels = decode(stream(2, 1, 4, &[0xFF, 0, 0, 0, 0, 0xFE, 0, 0, 1]));
    assert_eq!(pixels, Ok(vec![px(0, 0, 0, 0), px(0, 0, 1, 0)]));
}
