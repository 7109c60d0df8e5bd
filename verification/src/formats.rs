//! Raw buffer layouts advertised by the compositor, the descriptor of one
//! buffer-format advertisement, and the canonical color tags this engine
//! produces.

use vstd::prelude::*;

verus! {

/// The compositor-advertised raw buffer layouts this engine understands: two
/// packed-10-bit-per-channel variants (little-endian words, with or without a
/// meaningful alpha channel) and four 8-bit-per-channel byte-order variants.
/// Any other advertised layout is an unsupported-format condition.
#[derive(Debug, Clone, Copy, PartialEq, Eq, Structural)]
pub enum FrameFormat {
    Xbgr2101010,
    Xrgb8888,
    Xbgr8888,
    Abgr2101010,
    Abgr8888,
    Argb8888,
}

/// The wire code each supported layout travels under in the shared-memory
/// buffer protocol (the two legacy codes, then little-endian fourcc codes).
pub open spec fn raw_code_spec(f: FrameFormat) -> u32 {
    match f {
        FrameFormat::Argb8888 => 0,
        FrameFormat::Xrgb8888 => 1,
        FrameFormat::Xbgr8888 => 0x34324258,
        FrameFormat::Abgr8888 => 0x34324241,
        FrameFormat::Xbgr2101010 => 0x30334258,
        FrameFormat::Abgr2101010 => 0x30334241,
    }
}

/// Decode a wire code into a supported layout; codes outside the supported
/// set decode to `None` rather than aborting.
pub open spec fn format_from_raw_spec(raw: u32) -> Option<FrameFormat> {
    if raw == 0 {
        Some(FrameFormat::Argb8888)
    } else if raw == 1 {
        Some(FrameFormat::Xrgb8888)
    } else if raw == 0x34324258 {
        Some(FrameFormat::Xbgr8888)
    } else if raw == 0x34324241 {
        Some(FrameFormat::Abgr8888)
    } else if raw == 0x30334258 {
        Some(FrameFormat::Xbgr2101010)
    } else if raw == 0x30334241 {
        Some(FrameFormat::Abgr2101010)
    } else {
        None
    }
}

impl FrameFormat {
    /// Decode a compositor wire code; unknown codes yield `None` instead of a
    /// panic, so that an unrecognized advertisement can be reported as an
    /// unsupported format.
    pub fn from_wl_raw(raw: u32) -> (r: Option<FrameFormat>)
        ensures
            r == format_from_raw_spec(raw),
    {
        if raw == 0 {
            Some(FrameFormat::Argb8888)
        } else if raw == 1 {
            Some(FrameFormat::Xrgb8888)
        } else if raw == 0x34324258 {
            Some(FrameFormat::Xbgr8888)
        } else if raw == 0x34324241 {
            Some(FrameFormat::Abgr8888)
        } else if raw == 0x30334258 {
            Some(FrameFormat::Xbgr2101010)
        } else if raw == 0x30334241 {
            Some(FrameFormat::Abgr2101010)
        } else {
            None
        }
    }

    /// Encode this layout as its wire code. Decoding the code yields the same
    /// layout back: the two conversions round-trip.
    pub fn to_wl_raw(self) -> (r: u32)
        ensures
            r == raw_code_spec(self),
            format_from_raw_spec(r) == Some(self),
    {
        match self {
            FrameFormat::Argb8888 => 0,
            FrameFormat::Xrgb8888 => 1,
            FrameFormat::Xbgr8888 => 0x34324258,
            FrameFormat::Abgr8888 => 0x34324241,
            FrameFormat::Xbgr2101010 => 0x30334258,
            FrameFormat::Abgr2101010 => 0x30334241,
        }
    }
}

/// One compositor buffer-format advertisement: layout, dimensions, and the
/// stride in bytes per row (which may exceed `width * 4` due to alignment).
#[derive(Debug, Clone, Copy, PartialEq, Eq, Structural)]
pub struct FrameDescription {
    pub format: FrameFormat,
    pub width: u32,
    pub height: u32,
    pub stride: u32,
}

impl FrameDescription {
    /// Byte length of the buffer that holds one frame of this description.
    pub open spec fn byte_len(self) -> int {
        self.stride * self.height
    }

    /// The buffer needed for one frame is exactly `stride * height` bytes.
    pub fn buffer_size(&self) -> (n: u64)
        ensures
            n == self.byte_len(),
    {
        proof {
            assert(self.stride * self.height <= 0xffff_ffffu64 * 0xffff_ffffu64) by (nonlinear_arith)
                requires
                    self.stride <= 0xffff_ffffu64,
                    self.height <= 0xffff_ffffu64,
            ;
        }
        self.stride as u64 * self.height as u64
    }
}

/// Canonical color tags: every captured buffer is normalized to `Rgba8`;
/// `Rgb8` exists only as the result of the alpha-dropping pass used before
/// plain pixmap serialization.
#[derive(Debug, Clone, Copy, PartialEq, Eq, Structural)]
pub enum ColorType {
    Rgba8,
    Rgb8,
}

} // verus!
