//! The failures a recording cycle can end in.

use vstd::prelude::*;

verus! {

/// Why a recording cycle failed. Every failure leaves the lifecycle idle.
#[derive(Clone, Debug, PartialEq, Eq)]
pub enum FlowError {
    /// No input device could be opened.
    DeviceUnavailable,
    /// The device delivers samples in a format the sink does not take.
    UnsupportedFormat,
    /// The recording could not be written out.
    IoError,
    /// The transcription service answered with a status outside 200 to 299.
    ApiError { status: u16, body: String },
    /// A successful answer without a top-level string field `text`.
    MalformedResponse,
    /// No API key is configured.
    ConfigMissing,
}

} // verus!
