//! The error taxonomy of the capture pipeline.
//!
//! Every synchronous setup failure (enumeration, lookup, negotiation, build,
//! start) is surfaced directly to the caller as one of these kinds; none is
//! retried internally. A runtime error during active capture is reported
//! out-of-band through the session's error path and is not fatal to the
//! process.

use vstd::prelude::*;

verus! {

/// One failure kind per way the pipeline can go wrong.
#[derive(Clone, Copy, Debug, PartialEq, Eq, Structural)]
pub enum CaptureError {
    /// The host could not produce an input or output device iterator.
    DeviceEnumerationError,
    /// A device's name could not be read during enumeration.
    DeviceNameUnavailable,
    /// No input device carries the requested name.
    DeviceNotFound,
    /// The resolved device rejected the default input configuration query.
    ConfigurationUnavailable,
    /// The device's native sample encoding is outside the supported set.
    UnsupportedSampleFormat,
    /// The hardware stream could not be constructed.
    StreamBuildError,
    /// The constructed stream could not be activated.
    StreamStartError,
    /// The running stream reported an asynchronous error.
    StreamRuntimeError,
}

} // verus!
