//! Encoding of a captured frame for a downstream consumer: the supported
//! container formats, selection of one by name, and serialization of the
//! canonical RGBA8 buffer through an existing encoding library. Writing the
//! resulting bytes anywhere is the caller's business.

use vstd::prelude::*;

use crate::capture::CapturedFrame;
use crate::convert::rgb_of_rgba;
use crate::convert::rgba_to_rgb;
use crate::errors::CaptureError;
use crate::formats::ColorType;

use image::ImageEncoder;

verus! {

/// Supported image encoding formats.
#[derive(Debug, Clone, Copy, PartialEq, Eq, Structural)]
pub enum EncodingFormat {
    /// Jpeg / Jpg encoder.
    Jpg,
    /// Png encoder.
    Png,
    /// Ppm encoder.
    Ppm,
}

/// ASCII upper-case letters folded to lower case; all else unchanged.
pub open spec fn lower_ascii_char(c: char) -> char {
    if 'A' <= c && c <= 'Z' {
        ((c as u8) + 32) as char
    } else {
        c
    }
}

/// A name folded to ASCII lower case, character by character.
pub open spec fn lower_ascii(s: Seq<char>) -> Seq<char> {
    s.map_values(|c: char| lower_ascii_char(c))
}

/// The format a name denotes, compared case-insensitively: `jpg` and `jpeg`
/// select the Jpeg encoder, `png` and `ppm` their own; anything else
/// defaults to Png.
pub open spec fn encoding_from_name(s: Seq<char>) -> EncodingFormat {
    if lower_ascii(s) == "jpg"@ || lower_ascii(s) == "jpeg"@ {
        EncodingFormat::Jpg
    } else if lower_ascii(s) == "ppm"@ {
        EncodingFormat::Ppm
    } else {
        EncodingFormat::Png
    }
}

/// The file extension of each format.
pub open spec fn extension_spec(f: EncodingFormat) -> Seq<char> {
    match f {
        EncodingFormat::Png => "png"@,
        EncodingFormat::Jpg => "jpg"@,
        EncodingFormat::Ppm => "ppm"@,
    }
}

fn lower_ascii_char_exec(c: char) -> (r: char)
    ensures
        r == lower_ascii_char(c),
{
    if 'A' <= c && c <= 'Z' {
        ((c as u8) + 32) as char
    } else {
        c
    }
}

/// Does `s` read as `lit` once folded to ASCII lower case?
fn eq_lower(s: &str, lit: &str) -> (r: bool)
    ensures
        r == (lower_ascii(s@) == lit@),
{
    let n = s.unicode_len();
    let m = lit.unicode_len();
    if n != m {
        proof {
            assert(lower_ascii(s@).len() == s@.len());
        }
        return false;
    }
    let mut i: usize = 0;
    while i < n
        invariant
            n == s@.len(),
            n == lit@.len(),
            i <= n,
            forall|k: int| 0 <= k < i ==> lower_ascii(s@)[k] == lit@[k],
        decreases n - i,
    {
        let c = lower_ascii_char_exec(s.get_char(i));
        let d = lit.get_char(i);
        if c != d {
            proof {
                assert(lower_ascii(s@)[i as int] == lower_ascii_char(s@[i as int]));
            }
            return false;
        }
        i = i + 1;
    }
    proof {
        assert(lower_ascii(s@) =~= lit@);
    }
    true
}

impl EncodingFormat {
    /// Select the format a name denotes, case-insensitively, defaulting to
    /// Png for anything unrecognized.
    pub fn parse(value: &str) -> (r: EncodingFormat)
        ensures
            r == encoding_from_name(value@),
    {
        if eq_lower(value, "jpg") {
            EncodingFormat::Jpg
        } else if eq_lower(value, "jpeg") {
            EncodingFormat::Jpg
        } else if eq_lower(value, "ppm") {
            EncodingFormat::Ppm
        } else {
            EncodingFormat::Png
        }
    }

    /// The file extension this format is saved under.
    pub fn extension(self) -> (r: &'static str)
        ensures
            r@ == extension_spec(self),
    {
        match self {
            EncodingFormat::Png => "png",
            EncodingFormat::Jpg => "jpg",
            EncodingFormat::Ppm => "ppm",
        }
    }
}

impl From<String> for EncodingFormat {
    /// Select the format a name denotes, case-insensitively, defaulting to
    /// Png for anything unrecognized.
    fn from(value: String) -> (r: EncodingFormat) {
        EncodingFormat::parse(value.as_str())
    }
}

impl vstd::std_specs::convert::FromSpecImpl<String> for EncodingFormat {
    open spec fn obeys_from_spec() -> bool {
        true
    }

    open spec fn from_spec(value: String) -> EncodingFormat {
        encoding_from_name(value@)
    }
}

/// The PNG serialization of an RGBA8 buffer of exactly `width * height`
/// pixels; a function of the bytes and dimensions alone.
pub uninterp spec fn png_encoding(data: Seq<u8>, width: u32, height: u32) -> Seq<u8>;

/// The Jpeg serialization of an RGBA8 buffer of exactly `width * height`
/// pixels; a function of the bytes and dimensions alone.
pub uninterp spec fn jpeg_encoding(data: Seq<u8>, width: u32, height: u32) -> Seq<u8>;

/// The binary-pixmap serialization of an RGB8 buffer of exactly
/// `width * height` pixels; a function of the bytes and dimensions alone.
pub uninterp spec fn ppm_encoding(data: Seq<u8>, width: u32, height: u32) -> Seq<u8>;

/// Relies on image's `PngEncoder::write_image`: it panics unless the buffer
/// holds exactly `width * height` RGBA8 pixels, fails on a zero dimension,
/// and otherwise writes the PNG serialization of its arguments into the
/// sink.
#[verifier::external_body]
fn encode_png(data: &Vec<u8>, width: u32, height: u32) -> (r: Result<Vec<u8>, image::ImageError>)
    requires
        data@.len() == 4 * width * height,
    ensures
        r matches Ok(v) ==> v@ == png_encoding(data@, width, height),
        width > 0 && height > 0 ==> r is Ok,
{
    let mut out = Vec::new();
    match image::codecs::png::PngEncoder::new(&mut out).write_image(
        data,
        width,
        height,
        image::ColorType::Rgba8,
    ) {
        Ok(()) => Ok(out),
        Err(e) => Err(e),
    }
}

/// Relies on image's `JpegEncoder::write_image`: it panics unless the
/// buffer holds exactly `width * height` RGBA8 pixels, fails on a dimension
/// above 65535, and otherwise writes the Jpeg serialization of its
/// arguments into the sink.
#[verifier::external_body]
fn encode_jpeg(data: &Vec<u8>, width: u32, height: u32) -> (r: Result<Vec<u8>, image::ImageError>)
    requires
        data@.len() == 4 * width * height,
    ensures
        r matches Ok(v) ==> v@ == jpeg_encoding(data@, width, height),
        1 <= width <= 65535 && 1 <= height <= 65535 ==> r is Ok,
{
    let mut out = Vec::new();
    match image::codecs::jpeg::JpegEncoder::new(&mut out).write_image(
        data,
        width,
        height,
        image::ColorType::Rgba8,
    ) {
        Ok(()) => Ok(out),
        Err(e) => Err(e),
    }
}

/// Relies on image's `PnmEncoder::write_image` with the binary-pixmap
/// subtype: it panics unless the buffer holds exactly `width * height` RGB8
/// pixels, and otherwise writes the pixmap serialization of its arguments
/// into the sink.
#[verifier::external_body]
fn encode_ppm(data: &Vec<u8>, width: u32, height: u32) -> (r: Result<Vec<u8>, image::ImageError>)
    requires
        data@.len() == 3 * width * height,
    ensures
        r matches Ok(v) ==> v@ == ppm_encoding(data@, width, height),
        width > 0 && height > 0 ==> r is Ok,
{
    let mut out = Vec::new();
    match image::codecs::pnm::PnmEncoder::new(&mut out)
        .with_subtype(
            image::codecs::pnm::PnmSubtype::Pixmap(image::codecs::pnm::SampleEncoding::Binary),
        )
        .write_image(data, width, height, image::ColorType::Rgb8) {
        Ok(()) => Ok(out),
        Err(e) => Err(e),
    }
}

/// Declares image's `ImageError`, the error the encoders report; it is
/// carried opaquely and mapped to the engine's own error taxonomy.
#[verifier::external_type_specification]
#[verifier::external_body]
pub struct ExImageError(image::ImageError);

/// Does the frame's buffer hold exactly one 4-byte pixel per coordinate of
/// its descriptor — no stride padding?
pub open spec fn pixel_exact(frame: CapturedFrame) -> bool {
    frame.data@.len() == 4 * frame.desc.width * frame.desc.height
}

/// What serializing the frame under each format yields when it succeeds.
pub open spec fn encoded_bytes(frame: CapturedFrame, format: EncodingFormat) -> Seq<u8> {
    match format {
        EncodingFormat::Png => png_encoding(frame.data@, frame.desc.width, frame.desc.height),
        EncodingFormat::Jpg => jpeg_encoding(frame.data@, frame.desc.width, frame.desc.height),
        EncodingFormat::Ppm => ppm_encoding(
            rgb_of_rgba(frame.data@),
            frame.desc.width,
            frame.desc.height,
        ),
    }
}

/// Serialize a captured frame to a byte stream in the chosen format. The
/// buffer must hold exactly one pixel per coordinate (a stride wider than
/// the row is not understood by the encoders) and the dimensions must suit
/// the format; otherwise the serialization is refused. Pixmap output first
/// drops the alpha channel of every pixel.
pub fn encode_frame(frame: &CapturedFrame, format: EncodingFormat) -> (r: Result<
    Vec<u8>,
    CaptureError,
>)
    requires
        frame.color == ColorType::Rgba8,
    ensures
        r matches Ok(v) ==> pixel_exact(*frame) && v@ == encoded_bytes(*frame, format),
        r matches Err(e) ==> e == CaptureError::IoError,
        pixel_exact(*frame) && frame.desc.width > 0 && frame.desc.height > 0 && (format
            != EncodingFormat::Jpg || (frame.desc.width <= 65535 && frame.desc.height <= 65535))
            ==> r is Ok,
{
    let w = frame.desc.width;
    let h = frame.desc.height;
    proof {
        assert((4 * (w as int)) * (h as int) <= 0x4_0000_0000 * 0x1_0000_0000) by (nonlinear_arith)
            requires
                w <= 0xffff_ffffu64,
                h <= 0xffff_ffffu64,
        ;
    }
    let expected: u128 = 4u128 * (w as u128) * (h as u128);
    if frame.data.len() as u128 != expected {
        return Err(CaptureError::IoError);
    }
    let encoded = match format {
        EncodingFormat::Png => encode_png(&frame.data, w, h),
        EncodingFormat::Jpg => encode_jpeg(&frame.data, w, h),
        EncodingFormat::Ppm => {
            let rgb = rgba_to_rgb(&frame.data);
            proof {
                assert(3 * ((4 * w * h) / 4) == 3 * w * h) by (nonlinear_arith);
            }
            encode_ppm(&rgb, w, h)
        },
    };
    match encoded {
        Ok(v) => Ok(v),
        Err(_) => Err(CaptureError::IoError),
    }
}

} // verus!
