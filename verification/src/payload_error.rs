//! The failure taxonomy of the inbound pipeline, and the opaque error a
//! response envelope can carry.

use vstd::prelude::*;

verus! {

/// Why reading or translating a request body failed.
///
/// The first three arise before or during aggregation; the last three arise
/// from the byte stream itself or from the codec table.
#[derive(Debug, Clone, PartialEq, Eq)]
pub enum PayloadError {
    /// No value of the body-type header matched a known wire format; nothing
    /// of the stream has been read.
    ContentTypeUnrecognized,
    /// The length the request declared already exceeds the configured cap;
    /// nothing of the stream has been read.
    OverflowKnownLength { length: usize, limit: usize },
    /// The running total of aggregated bytes exceeded the configured cap
    /// mid-stream; the remaining input is discarded.
    Overflow { limit: usize },
    /// The underlying byte stream itself failed; the detail is its rendered
    /// description.
    UpstreamStreamError(String),
    /// The codec table could not turn the aggregated bytes into a value; the
    /// detail is the codec's rendered description.
    DecodeError(String),
    /// The codec table could not turn a value into bytes; the detail is the
    /// codec's rendered description.
    EncodeError(String),
}

/// The transport status that reports a given failure: the two size failures
/// are "payload too large", an encoding failure is a server-side fault, and
/// everything else blames the request.
pub open spec fn spec_status_code(e: PayloadError) -> u16 {
    match e {
        PayloadError::OverflowKnownLength { .. } => 413,
        PayloadError::Overflow { .. } => 413,
        PayloadError::EncodeError(_) => 500,
        PayloadError::ContentTypeUnrecognized => 400,
        PayloadError::UpstreamStreamError(_) => 400,
        PayloadError::DecodeError(_) => 400,
    }
}

/// A short rendering of a failure, without its details.
pub open spec fn spec_describe(e: PayloadError) -> Seq<char> {
    match e {
        PayloadError::ContentTypeUnrecognized => "content type error"@,
        PayloadError::OverflowKnownLength { .. } => "declared payload length exceeds the limit"@,
        PayloadError::Overflow { .. } => "payload has exceeded the limit"@,
        PayloadError::UpstreamStreamError(_) => "error while reading the payload stream"@,
        PayloadError::DecodeError(_) => "decode error"@,
        PayloadError::EncodeError(_) => "encode error"@,
    }
}

impl PayloadError {
    /// The numeric transport status that reports this failure.
    pub fn status_code(&self) -> (r: u16)
        ensures
            r == spec_status_code(*self),
    {
        match self {
            PayloadError::OverflowKnownLength { .. } => 413,
            PayloadError::Overflow { .. } => 413,
            PayloadError::EncodeError(_) => 500,
            PayloadError::ContentTypeUnrecognized => 400,
            PayloadError::UpstreamStreamError(_) => 400,
            PayloadError::DecodeError(_) => 400,
        }
    }

    /// A short rendering of this failure, without its details.
    pub fn describe(&self) -> (r: String)
        ensures
            r@ == spec_describe(*self),
    {
        match self {
            PayloadError::ContentTypeUnrecognized => "content type error".to_owned(),
            PayloadError::OverflowKnownLength { .. } => {
                "declared payload length exceeds the limit".to_owned()
            },
            PayloadError::Overflow { .. } => "payload has exceeded the limit".to_owned(),
            PayloadError::UpstreamStreamError(_) => {
                "error while reading the payload stream".to_owned()
            },
            PayloadError::DecodeError(_) => "decode error".to_owned(),
            PayloadError::EncodeError(_) => "encode error".to_owned(),
        }
    }
}

/// What a caller must supply so that an error of its own can ride in an
/// envelope: a rendered, debugging-oriented description of itself.
pub trait DebuggableAny {
    /// A rendered description of the error, as a debugger would print it.
    fn debug_text(&self) -> String;
}

impl DebuggableAny for PayloadError {
    fn debug_text(&self) -> String {
        self.describe()
    }
}

/// The opaque, debuggable error an `Error` envelope carries: the rendered
/// description of the original error, and the pipeline failure itself where
/// one was the cause.
#[derive(Debug, Clone, PartialEq, Eq)]
pub struct OpaqueError {
    /// The rendered description of the original error.
    pub text: String,
    /// The pipeline failure this error arose from, if any.
    pub payload: Option<PayloadError>,
}

} // verus!
