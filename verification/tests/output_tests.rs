use scrcap::capture::CapturedFrame;
use scrcap::errors::CaptureError;
use scrcap::formats::{ColorType, FrameDescription, FrameFormat};
use scrcap::output::{encode_frame, EncodingFormat};

#[test]
fn encoding_name_is_case_insensitive_with_png_default() {
    assert_eq!(EncodingFormat::from(String::from("jpg")), EncodingFormat::Jpg);
    assert_eq!(EncodingFormat::from(String::from("JPEG")), EncodingFormat::Jpg);
    assert_eq!(EncodingFormat::from(String::from("Png")), EncodingFormat::Png);
    assert_eq!(EncodingFormat::from(String::from("PPM")), EncodingFormat::Ppm);
    assert_eq!(EncodingFormat::from(String::from("webp")), EncodingFormat::Png);
    assert_eq!(EncodingFormat::from(String::from("")), EncodingFormat::Png);
}

#[test]
fn extensions_name_their_formats() {
    assert_eq!(EncodingFormat::Png.extension(), "png");
    assert_eq!(EncodingFormat::Jpg.extension(), "jpg");
    assert_eq!(EncodingFormat::Ppm.extension(), "ppm");
}

fn small_frame() -> CapturedFrame {
    CapturedFrame {
        desc: FrameDescription { format: FrameFormat::Xbgr8888, width: 2, height: 2, stride: 8 },
        color: ColorType::Rgba8,
        data: vec![
            10, 20, 30, 255, 40, 50, 60, 255, 70, 80, 90, 255, 100, 110, 120, 255,
        ],
    }
}

#[test]
fn png_serialization_carries_the_png_signature() {
    let bytes = encode_frame(&small_frame(), EncodingFormat::Png).unwrap();
    assert_eq!(&bytes[..8], &[137, 80, 78, 71, 13, 10, 26, 10]);
    assert_ne!(bytes, small_frame().data);
}

#[test]
fn jpeg_serialization_carries_the_jpeg_marker() {
    let bytes = encode_frame(&small_frame(), EncodingFormat::Jpg).unwrap();
    assert_eq!(&bytes[..2], &[0xFF, 0xD8]);
}

#[test]
fn ppm_serialization_is_binary_pixmap_with_dropped_alpha() {
    let bytes = encode_frame(&small_frame(), EncodingFormat::Ppm).unwrap();
    assert_eq!(&bytes[..2], b"P6");
    // The sample payload is the 2x2 frame without its alpha bytes.
    let payload = &bytes[bytes.len() - 12..];
    assert_eq!(payload, &[10, 20, 30, 40, 50, 60, 70, 80, 90, 100, 110, 120]);
}

#[test]
fn padded_stride_buffer_is_refused() {
    let frame = CapturedFrame {
        desc: FrameDescription { format: FrameFormat::Xbgr8888, width: 2, height: 2, stride: 12 },
        color: ColorType::Rgba8,
        data: vec![0u8; 24],
    };
    assert_eq!(
        encode_frame(&frame, EncodingFormat::Png).unwrap_err(),
        CaptureError::IoError
    );
}

#[test]
fn error_descriptions_are_stable() {
    assert_eq!(
        CaptureError::UnsupportedFormat.describe(),
        "no suitable frame format found"
    );
    assert_eq!(
        CaptureError::CaptureFailed.describe(),
        "could not copy frame from compositor to client"
    );
}
