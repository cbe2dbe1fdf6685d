use vstd::prelude::*;

verus! {

/// The failures a decode pipeline can surface. Engine-call failures carry a
/// fixed message; the other variants describe faults this library detects
/// itself.
#[derive(Debug, Clone, PartialEq, Eq)]
pub enum Error {
    /// An engine call returned a non-success code; the message names the call.
    FfiError(&'static str),
    /// Reading the codestream header failed.
    ReadHeader,
    /// The image reports more component planes than any supported layout.
    TooManyComponents(usize),
    /// The image carries no color-space metadata and no fallback was given.
    UnspecifiedColorSpace,
    /// The image reports a color-space code this library does not recognize.
    UnknownColorSpace,
    /// A file path holds an embedded terminator byte at the given position.
    NulError(usize),
    /// A pixel container does not hold exactly width * height * bands samples.
    ImageContainerTooSmall,
    /// The image holds a component count no packing mode supports.
    UnsupportedComponentCount(usize),
}

impl Error {
    /// The fixed description of each failure; engine-call failures return
    /// their stored message.
    pub open spec fn spec_message(&self) -> Seq<char> {
        match self {
            Error::FfiError(s) => s@,
            Error::ReadHeader => "Failed to read header."@,
            Error::TooManyComponents(_) => "There were too many components in the supplied file."@,
            Error::UnspecifiedColorSpace => "Unspecified color space."@,
            Error::UnknownColorSpace => "Unknown color space."@,
            Error::NulError(_) => "Path holds an embedded terminator byte."@,
            Error::ImageContainerTooSmall => "Image container is too small."@,
            Error::UnsupportedComponentCount(_) => "Unsupported component count."@,
        }
    }

    pub fn message(&self) -> (r: &'static str)
        ensures
            r@ == self.spec_message(),
    {
        match self {
            Error::FfiError(s) => s,
            Error::ReadHeader => "Failed to read header.",
            Error::TooManyComponents(_) => "There were too many components in the supplied file.",
            Error::UnspecifiedColorSpace => "Unspecified color space.",
            Error::UnknownColorSpace => "Unknown color space.",
            Error::NulError(_) => "Path holds an embedded terminator byte.",
            Error::ImageContainerTooSmall => "Image container is too small.",
            Error::UnsupportedComponentCount(_) => "Unsupported component count.",
        }
    }
}

} // verus!
