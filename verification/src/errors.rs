//! The error taxonomy of the capture engine. Every failure is returned to the
//! immediate caller; nothing is retried inside the engine.

use vstd::prelude::*;

verus! {

/// Why a capture operation failed.
#[derive(Debug, Clone, Copy, PartialEq, Eq, Structural)]
pub enum CaptureError {
    /// No compositor endpoint is reachable, or the screen-copy capability is
    /// absent. Fatal and non-retryable.
    ConnectionError,
    /// No advertised buffer format is in the supported set. Fatal for the
    /// transaction it arose in.
    UnsupportedFormat,
    /// The requested region is degenerate or not contained in the chosen
    /// output's bounds.
    InvalidRegion,
    /// A named output does not exist, or no output exists at all.
    NotFound,
    /// The compositor reported that it could not copy the frame.
    CaptureFailed,
    /// Creating or sizing the shared-memory region failed.
    AllocationError,
    /// A collaborator failed to serialize or write the frame.
    IoError,
}

impl CaptureError {
    /// A short human-readable account of the failure.
    pub fn describe(&self) -> (r: &'static str)
        ensures
            r@ == describe_spec(*self),
    {
        match self {
            CaptureError::ConnectionError => "could not reach the compositor or its screen-copy capability",
            CaptureError::UnsupportedFormat => "no suitable frame format found",
            CaptureError::InvalidRegion => "region is invalid",
            CaptureError::NotFound => "no matching output found",
            CaptureError::CaptureFailed => "could not copy frame from compositor to client",
            CaptureError::AllocationError => "could not allocate the shared-memory region",
            CaptureError::IoError => "could not serialize or write the frame",
        }
    }
}

pub open spec fn describe_spec(e: CaptureError) -> Seq<char> {
    match e {
        CaptureError::ConnectionError => "could not reach the compositor or its screen-copy capability"@,
        CaptureError::UnsupportedFormat => "no suitable frame format found"@,
        CaptureError::InvalidRegion => "region is invalid"@,
        CaptureError::NotFound => "no matching output found"@,
        CaptureError::CaptureFailed => "could not copy frame from compositor to client"@,
        CaptureError::AllocationError => "could not allocate the shared-memory region"@,
        CaptureError::IoError => "could not serialize or write the frame"@,
    }
}

} // verus!
