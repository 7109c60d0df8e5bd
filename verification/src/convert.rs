//! The pixel converter: normalizes a raw buffer of a given frame layout to
//! canonical RGBA8, in place, one 4-byte pixel unit at a time. It never
//! allocates and never changes the buffer's length; bytes after the last
//! complete 4-byte unit are left untouched.

use vstd::prelude::*;

use crate::formats::ColorType;
use crate::formats::FrameFormat;

verus! {

/// Reduce one 10-bit channel to 8 bits by keeping the top 8 of the 10.
/// This is a lossy truncation, not a rounding.
pub open spec fn convert10_spec(color: u32) -> u8 {
    ((color >> 2) & 255) as u8
}

/// The 32-bit word formed by four bytes taken little-endian.
pub open spec fn word_le(b0: u8, b1: u8, b2: u8, b3: u8) -> u32 {
    ((b3 as u32) << 24) | ((b2 as u32) << 16) | ((b1 as u32) << 8) | (b0 as u32)
}

/// Byte `i` of the buffer after swapping channels 0 and 2 of every complete
/// 4-byte pixel; channels 1 and 3 and any trailing bytes are unchanged.
pub open spec fn rb_swap_at(s: Seq<u8>, i: int) -> u8
    recommends
        0 <= i < s.len(),
{
    let k = 4 * (i / 4);
    if k + 4 <= s.len() {
        if i % 4 == 0 {
            s[k + 2]
        } else if i % 4 == 2 {
            s[k]
        } else {
            s[i]
        }
    } else {
        s[i]
    }
}

/// The buffer after the R/B channel swap of every complete 4-byte pixel.
pub open spec fn rb_swap(s: Seq<u8>) -> Seq<u8> {
    Seq::new(s.len(), |i: int| rb_swap_at(s, i))
}

/// Byte `i` of the buffer after unpacking every complete 4-byte pixel from a
/// packed 10-bit-per-channel little-endian word: the three channels sit at
/// bit offsets 20, 10 and 0; each is truncated to its top 8 bits; byte order
/// in the result is B, G, R, with alpha forced to fully opaque.
pub open spec fn unpack10_at(s: Seq<u8>, i: int) -> u8
    recommends
        0 <= i < s.len(),
{
    let k = 4 * (i / 4);
    if k + 4 <= s.len() {
        let w = word_le(s[k], s[k + 1], s[k + 2], s[k + 3]);
        if i % 4 == 0 {
            convert10_spec(w)
        } else if i % 4 == 1 {
            convert10_spec(w >> 10)
        } else if i % 4 == 2 {
            convert10_spec(w >> 20)
        } else {
            255
        }
    } else {
        s[i]
    }
}

/// The buffer after unpacking every complete 4-byte pixel of a packed
/// 10-bit-per-channel layout.
pub open spec fn unpack10(s: Seq<u8>) -> Seq<u8> {
    Seq::new(s.len(), |i: int| unpack10_at(s, i))
}

/// What the converter leaves in the buffer for each supported layout:
/// already-RGBA-ordered 8-bit layouts are the identity, byte-swapped 8-bit
/// layouts get the R/B swap, and packed 10-bit layouts are unpacked.
pub open spec fn convert_spec(format: FrameFormat, s: Seq<u8>) -> Seq<u8> {
    match format {
        FrameFormat::Xbgr8888 => s,
        FrameFormat::Abgr8888 => s,
        FrameFormat::Xrgb8888 => rb_swap(s),
        FrameFormat::Argb8888 => rb_swap(s),
        FrameFormat::Xbgr2101010 => unpack10(s),
        FrameFormat::Abgr2101010 => unpack10(s),
    }
}

/// Conversion leaves the buffer's length exactly as it was, whatever the
/// layout and contents.
pub proof fn lemma_convert_preserves_length(format: FrameFormat, s: Seq<u8>)
    ensures
        convert_spec(format, s).len() == s.len(),
{
}

/// Simple conversion from 10 to 8 bits for one channel.
pub fn convert10_to_8(color: u32) -> (r: u8)
    ensures
        r == convert10_spec(color),
{
    proof {
        assert((color >> 2) & 255 < 256) by (bit_vector);
    }
    ((color >> 2) & 255) as u8
}

/// Swap channels 0 and 2 of every complete 4-byte pixel, in place.
fn rb_swap_inplace(data: &mut Vec<u8>)
    ensures
        final(data)@ == rb_swap(old(data)@),
{
    let len = data.len();
    let pixels = len / 4;
    let mut p: usize = 0;
    while p < pixels
        invariant
            data@.len() == len,
            len == old(data)@.len(),
            pixels == len / 4,
            p <= pixels,
            forall|j: int| 0 <= j < 4 * p ==> data@[j] == rb_swap_at(old(data)@, j),
            forall|j: int| 4 * p <= j < len ==> data@[j] == old(data)@[j],
        decreases pixels - p,
    {
        let i = p * 4;
        let b0 = data[i];
        let b2 = data[i + 2];
        data[i] = b2;
        data[i + 2] = b0;
        p = p + 1;
    }
    proof {
        assert(data@ =~= rb_swap(old(data)@));
    }
}

/// Unpack every complete 4-byte pixel of a packed 10-bit-per-channel
/// little-endian layout, in place.
fn unpack10_inplace(data: &mut Vec<u8>)
    ensures
        final(data)@ == unpack10(old(data)@),
{
    let len = data.len();
    let pixels = len / 4;
    let mut p: usize = 0;
    while p < pixels
        invariant
            data@.len() == len,
            len == old(data)@.len(),
            pixels == len / 4,
            p <= pixels,
            forall|j: int| 0 <= j < 4 * p ==> data@[j] == unpack10_at(old(data)@, j),
            forall|j: int| 4 * p <= j < len ==> data@[j] == old(data)@[j],
        decreases pixels - p,
    {
        let i = p * 4;
        let b0 = data[i];
        let b1 = data[i + 1];
        let b2 = data[i + 2];
        let b3 = data[i + 3];
        let pixel = ((b3 as u32) << 24) | ((b2 as u32) << 16) | ((b1 as u32) << 8) | (b0 as u32);
        let r = convert10_to_8(pixel >> 20);
        let g = convert10_to_8(pixel >> 10);
        let b = convert10_to_8(pixel);
        data[i] = b;
        data[i + 1] = g;
        data[i + 2] = r;
        data[i + 3] = 255;
        p = p + 1;
    }
    proof {
        assert(data@ =~= unpack10(old(data)@));
    }
}

/// Normalize a raw buffer of the given layout to canonical RGBA8, in place,
/// and return the canonical color tag. The buffer's length never changes;
/// the tag is always `Rgba8`, whatever the input layout.
pub fn convert_inplace(format: FrameFormat, data: &mut Vec<u8>) -> (c: ColorType)
    ensures
        c == ColorType::Rgba8,
        final(data)@ == convert_spec(format, old(data)@),
        final(data)@.len() == old(data)@.len(),
{
    match format {
        FrameFormat::Xbgr8888 => (),
        FrameFormat::Abgr8888 => (),
        FrameFormat::Xrgb8888 => rb_swap_inplace(data),
        FrameFormat::Argb8888 => rb_swap_inplace(data),
        FrameFormat::Xbgr2101010 => unpack10_inplace(data),
        FrameFormat::Abgr2101010 => unpack10_inplace(data),
    }
    ColorType::Rgba8
}

/// A normalizer of raw pixel buffers: what it leaves in the buffer is given
/// by its own `spec_convert`, and the buffer always comes out tagged as
/// canonical RGBA8 with its length unchanged.
pub trait Convert {
    /// What this converter leaves in the buffer.
    spec fn spec_convert(&self, s: Seq<u8>) -> Seq<u8>;

    /// Convert raw image data in place and return the canonical color tag.
    fn convert_inplace(&self, data: &mut Vec<u8>) -> (c: ColorType)
        ensures
            c == ColorType::Rgba8,
            final(data)@ == self.spec_convert(old(data)@),
            final(data)@.len() == old(data)@.len(),
    ;
}

/// The converter for one supported layout: identity for the 8-bit layouts
/// already in canonical order, the R/B swap for the byte-swapped 8-bit
/// layouts, the unpacking pass for the packed 10-bit layouts.
#[derive(Debug, Clone, Copy, PartialEq, Eq, Structural)]
pub enum Converter {
    Identity,
    RbSwap,
    Unpack10,
}

impl Convert for Converter {
    open spec fn spec_convert(&self, s: Seq<u8>) -> Seq<u8> {
        match self {
            Converter::Identity => s,
            Converter::RbSwap => rb_swap(s),
            Converter::Unpack10 => unpack10(s),
        }
    }

    fn convert_inplace(&self, data: &mut Vec<u8>) -> (c: ColorType)
        ensures
            c == ColorType::Rgba8,
            final(data)@ == self.spec_convert(old(data)@),
            final(data)@.len() == old(data)@.len(),
    {
        match self {
            Converter::Identity => (),
            Converter::RbSwap => rb_swap_inplace(data),
            Converter::Unpack10 => unpack10_inplace(data),
        }
        ColorType::Rgba8
    }
}

/// The converter that normalizes the given layout: running it leaves in the
/// buffer exactly what `convert_spec` says of that layout.
pub fn create_converter(format: FrameFormat) -> (c: Converter)
    ensures
        forall|s: Seq<u8>| c.spec_convert(s) == convert_spec(format, s),
{
    match format {
        FrameFormat::Xbgr8888 => Converter::Identity,
        FrameFormat::Abgr8888 => Converter::Identity,
        FrameFormat::Xrgb8888 => Converter::RbSwap,
        FrameFormat::Argb8888 => Converter::RbSwap,
        FrameFormat::Xbgr2101010 => Converter::Unpack10,
        FrameFormat::Abgr2101010 => Converter::Unpack10,
    }
}

/// Byte `i` of the alpha-dropping pass: every 4-byte RGBA pixel keeps its
/// first three channels.
pub open spec fn rgb_of_rgba_at(s: Seq<u8>, i: int) -> u8 {
    s[4 * (i / 3) + i % 3]
}

/// The 3-byte-per-pixel buffer obtained by dropping the alpha channel of
/// every complete 4-byte RGBA pixel.
pub open spec fn rgb_of_rgba(s: Seq<u8>) -> Seq<u8> {
    Seq::new(3 * (s.len() / 4), |i: int| rgb_of_rgba_at(s, i))
}

/// Drop the alpha channel of every complete 4-byte RGBA pixel, yielding a
/// fresh 3-byte-per-pixel buffer (the pass plain pixmap serialization needs).
pub fn rgba_to_rgb(data: &Vec<u8>) -> (r: Vec<u8>)
    ensures
        r@ == rgb_of_rgba(data@),
{
    let len = data.len();
    let pixels = len / 4;
    let mut out: Vec<u8> = Vec::new();
    let mut p: usize = 0;
    while p < pixels
        invariant
            data@.len() == len,
            pixels == len / 4,
            p <= pixels,
            out@.len() == 3 * p,
            forall|j: int| 0 <= j < out@.len() ==> out@[j] == rgb_of_rgba_at(data@, j),
        decreases pixels - p,
    {
        let i = p * 4;
        out.push(data[i]);
        out.push(data[i + 1]);
        out.push(data[i + 2]);
        p = p + 1;
    }
    proof {
        assert(out@ =~= rgb_of_rgba(data@));
    }
    out
}

} // verus!
