use scrcap::convert::{convert10_to_8, convert_inplace, create_converter, rgba_to_rgb, Convert};
use scrcap::formats::{ColorType, FrameFormat};

const ALL_FORMATS: [FrameFormat; 6] = [
    FrameFormat::Xbgr2101010,
    FrameFormat::Xrgb8888,
    FrameFormat::Xbgr8888,
    FrameFormat::Abgr2101010,
    FrameFormat::Abgr8888,
    FrameFormat::Argb8888,
];

#[test]
fn convert_yields_rgba8_and_preserves_length_for_all_formats() {
    for format in ALL_FORMATS {
        for len in [0usize, 1, 3, 4, 7, 8, 64, 4096] {
            let mut data: Vec<u8> = (0..len).map(|i| (i * 37 % 256) as u8).collect();
            let tag = convert_inplace(format, &mut data);
            assert_eq!(tag, ColorType::Rgba8);
            assert_eq!(data.len(), len);
        }
    }
}

#[test]
fn ten_bit_channel_truncates_top_eight_of_ten() {
    // All ten red bits set, at bit offset 20: truncates to full 255.
    assert_eq!(convert10_to_8(0b1111111111), 255);
    // Only the lowest of the ten bits set: truncated away, not rounded up.
    assert_eq!(convert10_to_8(0b0000000001), 0);
}

#[test]
fn ten_bit_word_red_full_scale() {
    // R = 0b1111111111 at bit 20 -> little-endian word 0xFFF00000.
    let mut data = vec![0x00, 0x00, 0xF0, 0xFF];
    let tag = convert_inplace(FrameFormat::Xbgr2101010, &mut data);
    assert_eq!(tag, ColorType::Rgba8);
    // Byte order after conversion is B, G, R, A.
    assert_eq!(data[2], 255);
    assert_eq!(data[3], 255);
}

#[test]
fn ten_bit_word_red_lowest_bit_truncates_to_zero() {
    // R = 0b0000000001 at bit 20 -> little-endian word 0x00100000.
    let mut data = vec![0x00, 0x00, 0x10, 0x00];
    let tag = convert_inplace(FrameFormat::Abgr2101010, &mut data);
    assert_eq!(tag, ColorType::Rgba8);
    assert_eq!(data[2], 0);
    assert_eq!(data[3], 255);
}

#[test]
fn rb_swap_swaps_first_and_third_channel() {
    let mut data = vec![0x10, 0x20, 0x30, 0x40];
    let tag = convert_inplace(FrameFormat::Xrgb8888, &mut data);
    assert_eq!(tag, ColorType::Rgba8);
    assert_eq!(data, vec![0x30, 0x20, 0x10, 0x40]);

    let mut data = vec![0x10, 0x20, 0x30, 0x40];
    let tag = convert_inplace(FrameFormat::Argb8888, &mut data);
    assert_eq!(tag, ColorType::Rgba8);
    assert_eq!(data, vec![0x30, 0x20, 0x10, 0x40]);
}

#[test]
fn identity_formats_leave_bytes_unchanged() {
    let original = vec![1u8, 2, 3, 4, 5, 6, 7, 8];
    let mut data = original.clone();
    convert_inplace(FrameFormat::Xbgr8888, &mut data);
    assert_eq!(data, original);
    let mut data = original.clone();
    convert_inplace(FrameFormat::Abgr8888, &mut data);
    assert_eq!(data, original);
}

#[test]
fn trailing_bytes_after_last_complete_pixel_stay_untouched() {
    let mut data = vec![0x10, 0x20, 0x30, 0x40, 0xAA, 0xBB];
    convert_inplace(FrameFormat::Xrgb8888, &mut data);
    assert_eq!(data, vec![0x30, 0x20, 0x10, 0x40, 0xAA, 0xBB]);
}

#[test]
fn created_converter_matches_direct_conversion() {
    for format in ALL_FORMATS {
        let original: Vec<u8> = (0..32).map(|i| (i * 11 % 256) as u8).collect();
        let mut direct = original.clone();
        let mut through_converter = original.clone();
        let tag_direct = convert_inplace(format, &mut direct);
        let tag_converter = create_converter(format).convert_inplace(&mut through_converter);
        assert_eq!(tag_direct, tag_converter);
        assert_eq!(direct, through_converter);
    }
}

#[test]
fn rgba_to_rgb_drops_every_fourth_byte() {
    let data = vec![1u8, 2, 3, 4, 5, 6, 7, 8];
    assert_eq!(rgba_to_rgb(&data), vec![1, 2, 3, 5, 6, 7]);
    let empty: Vec<u8> = Vec::new();
    assert_eq!(rgba_to_rgb(&empty), Vec::<u8>::new());
}
