//! The error taxonomy of the library.
//!
//! Every failure a caller can see carries one of the kinds below, so that
//! "nothing was found" can be told apart from "something was found but could
//! not be read".

use vstd::prelude::*;

verus! {

/// The bitmap plane a read failure concerns.
#[derive(Clone, Copy, Debug, PartialEq, Eq, Structural)]
pub enum PlaneKind {
    Color,
    Mask,
}

/// Inner error kind of a possible [`Error`].
#[derive(Clone, Copy, Debug, PartialEq, Eq, Structural)]
pub enum InnerError {
    /// A resolution or extraction step produced the native "no value" sentinel.
    InvalidHandle,
    /// The graphics subsystem could not allocate an off-screen drawing surface.
    DeviceContextFailure,
    /// A plane read returned zero or fewer scanlines than expected, or a
    /// buffer of the wrong length.
    BitmapReadFailure(PlaneKind),
    /// The image encoder rejected the pixel buffer.
    EncodingFailure,
    /// Every resolution fallback was exhausted without a valid handle.
    NotFound,
}

/// Possible error.
#[derive(Debug)]
pub struct Error {
    pub message: String,
    pub inner_error: InnerError,
}

/// The message text that belongs to an error kind.
pub open spec fn message_of(kind: InnerError) -> Seq<char> {
    match kind {
        InnerError::InvalidHandle => "Failed to get icon info."@,
        InnerError::DeviceContextFailure => "Failed to create compatible DC."@,
        InnerError::BitmapReadFailure(PlaneKind::Color) => "Failed to get color DIB bits."@,
        InnerError::BitmapReadFailure(PlaneKind::Mask) => "Failed to get mask DIB bits."@,
        InnerError::EncodingFailure => "The image encoder rejected the pixel buffer."@,
        InnerError::NotFound => "No icon could be resolved for the identifier."@,
    }
}

/// What it means for an [`Error`] value to report a given kind.
pub open spec fn is_error_of(e: Error, kind: InnerError) -> bool {
    &&& e.inner_error == kind
    &&& e.message@ == message_of(kind)
}

impl Error {
    /// Build the error value that reports the given kind.
    pub fn from_kind(kind: InnerError) -> (r: Error)
        ensures
            is_error_of(r, kind),
    {
        let message = match kind {
            InnerError::InvalidHandle => "Failed to get icon info.".to_owned(),
            InnerError::DeviceContextFailure => "Failed to create compatible DC.".to_owned(),
            InnerError::BitmapReadFailure(PlaneKind::Color) => "Failed to get color DIB bits."
                .to_owned(),
            InnerError::BitmapReadFailure(PlaneKind::Mask) => "Failed to get mask DIB bits."
                .to_owned(),
            InnerError::EncodingFailure => "The image encoder rejected the pixel buffer."
                .to_owned(),
            InnerError::NotFound => "No icon could be resolved for the identifier.".to_owned(),
        };
        Error { message, inner_error: kind }
    }

    /// The kind this error reports.
    pub fn kind(&self) -> (r: InnerError)
        ensures
            r == self.inner_error,
    {
        self.inner_error
    }
}

} // verus!
