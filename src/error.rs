use vstd::prelude::*;

verus! {

/// The ways in which an image operation can fail. Every failure is reported
/// through this type; no operation aborts the calling process.
#[derive(Debug, Clone, Copy, PartialEq, Eq, Structural)]
pub enum ImageError {
    /// The bytes are empty, truncated, or not a recognised image container.
    DecodeError,
    /// The text handed in is not valid base64.
    Base64DecodeError,
    /// A parameter is outside what the operation accepts: an unknown blur
    /// family, a kernel size that is not a positive odd number, or a scale
    /// factor that is not positive or yields a dimension of zero pixels.
    InvalidParameterError,
    /// An internal fault: the result could not be produced or encoded (its
    /// base64 text would not be addressable).
    EncodeError,
}

} // verus!
