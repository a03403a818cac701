//! The format dispatcher: the closed set of native sample encodings a device
//! can report, and the selection of the typed capture path for one of them.
//!
//! Only three encodings are supported — 32-bit float, signed 16-bit integer
//! and unsigned 16-bit integer. Dispatch on any other encoding fails with
//! `UnsupportedSampleFormat` before any stream is built.

use vstd::prelude::*;

use crate::errors::CaptureError;

verus! {

/// A native sample encoding as the host reports it: the raw numeric
/// representation a device's hardware stream delivers samples in.
#[derive(Clone, Copy, Debug, PartialEq, Eq, Structural)]
pub enum SampleEncoding {
    I8,
    I16,
    I24,
    I32,
    I64,
    U8,
    U16,
    U24,
    U32,
    U64,
    F32,
    F64,
    DsdU8,
    DsdU16,
    DsdU32,
}

/// One of the three typed capture paths the dispatcher can build.
#[derive(Clone, Copy, Debug, PartialEq, Eq, Structural)]
pub enum SupportedFormat {
    Float32,
    Int16,
    Uint16,
}

/// Whether an encoding belongs to the supported set.
pub open spec fn encoding_supported(encoding: SampleEncoding) -> bool {
    encoding is F32 || encoding is I16 || encoding is U16
}

/// The typed path a supported encoding dispatches to.
pub open spec fn format_of(encoding: SampleEncoding) -> SupportedFormat
    recommends
        encoding_supported(encoding),
{
    match encoding {
        SampleEncoding::F32 => SupportedFormat::Float32,
        SampleEncoding::I16 => SupportedFormat::Int16,
        _ => SupportedFormat::Uint16,
    }
}

/// Selects the typed capture path for a native encoding. Exactly the three
/// supported encodings succeed; every other member of the closed set fails
/// with `UnsupportedSampleFormat`, and no stream is built from a failure.
pub fn dispatch_encoding(encoding: SampleEncoding) -> (r: Result<SupportedFormat, CaptureError>)
    ensures
        r is Ok <==> encoding_supported(encoding),
        encoding_supported(encoding) ==> r == Ok::<SupportedFormat, CaptureError>(
            format_of(encoding),
        ),
        !encoding_supported(encoding) ==> r == Err::<SupportedFormat, CaptureError>(
            CaptureError::UnsupportedSampleFormat,
        ),
{
    match encoding {
        SampleEncoding::F32 => Ok(SupportedFormat::Float32),
        SampleEncoding::I16 => Ok(SupportedFormat::Int16),
        SampleEncoding::U16 => Ok(SupportedFormat::Uint16),
        _ => Err(CaptureError::UnsupportedSampleFormat),
    }
}

} // verus!
