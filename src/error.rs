//! The error taxonomy of a decode, and the classification of native status codes.
use vstd::prelude::*;

verus! {

/// Why a decode request was refused before the native call.
#[derive(Debug, Clone, Copy, PartialEq, Eq)]
pub enum RequestFault {
    /// The request holds no frame.
    NoFrames,
    /// The frame count of the dimensions differs from the number of frames.
    FrameCountMismatch,
    /// More than one sample per pixel: colour data is not decoded.
    UnsupportedSamplesPerPixel,
    /// One of the frames holds no byte.
    EmptyFrame,
}

/// What went wrong in a decode.
#[derive(Debug, Clone, PartialEq, Eq)]
pub enum DecodeError {
    /// The codec could not allocate its output (status 1).
    AllocationFailure,
    /// The codec could not read the encoded stream (status 2).
    StreamReadFailure,
    /// Any other non-zero status, kept as it came.
    Unknown(u32),
    /// The codec reported success but handed back no buffer.
    InvalidPointer,
    /// A string that names no known transfer syntax or photometric interpretation.
    InvalidIdentifier(String),
    /// The request was refused before the native call.
    InvalidRequest(RequestFault),
}

/// The error of this library's decode operations.
#[derive(Debug, Clone, PartialEq, Eq)]
pub struct Error(pub DecodeError);

/// The error that a non-zero status of the native decoder stands for.
pub open spec fn status_error(status: u32) -> DecodeError {
    if status == 1 {
        DecodeError::AllocationFailure
    } else if status == 2 {
        DecodeError::StreamReadFailure
    } else {
        DecodeError::Unknown(status)
    }
}

impl Error {
    /// The kind of this error.
    pub fn kind(&self) -> (r: &DecodeError)
        ensures
            *r == self.0,
    {
        &self.0
    }
}

/// Maps a non-zero status code of the native decoder to its error.
///
/// Status 0 means success and is handled before this; should it come here, it
/// is kept as an unknown status like any other unmapped value.
pub fn classify_status(status: u32) -> (r: DecodeError)
    ensures
        r == status_error(status),
{
    if status == 1 {
        DecodeError::AllocationFailure
    } else if status == 2 {
        DecodeError::StreamReadFailure
    } else {
        DecodeError::Unknown(status)
    }
}

} // verus!
