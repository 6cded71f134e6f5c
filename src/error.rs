use vstd::prelude::*;

verus! {

/// What can go wrong while reading and decoding.
#[derive(Clone, Copy, Debug, PartialEq, Eq, Structural)]
pub enum Error {
    /// The packet source has no more packets; the decoder is to be drained.
    ReadExhausted,
    /// Draining produced no more frames and the input is exhausted.
    DecodeExhausted,
    /// The stream's parameters give no pixel format or an empty frame size.
    MissingCodecParameters,
    /// The resize policy leaves no positive output size.
    InvalidResizeParameters,
    /// The requested stream is not in the input.
    StreamNotFound,
    /// An error of the codec, scaling or resampling layer, with its code.
    BackendError(i32),
}

impl Error {
    /// A short description of the error.
    pub fn message(&self) -> (r: &'static str)
        ensures
            r@ == match *self {
                Error::ReadExhausted => "read exhausted"@,
                Error::DecodeExhausted => "decode exhausted"@,
                Error::MissingCodecParameters => "missing codec parameters"@,
                Error::InvalidResizeParameters => "cannot resize frame into provided dimensions"@,
                Error::StreamNotFound => "stream not found"@,
                Error::BackendError(_) => "backend error"@,
            },
    {
        match self {
            Error::ReadExhausted => "read exhausted",
            Error::DecodeExhausted => "decode exhausted",
            Error::MissingCodecParameters => "missing codec parameters",
            Error::InvalidResizeParameters => "cannot resize frame into provided dimensions",
            Error::StreamNotFound => "stream not found",
            Error::BackendError(_) => "backend error",
        }
    }
}

} // verus!
