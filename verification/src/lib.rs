//! Core logic of an audio capture pipeline: device directory snapshots,
//! sample-format dispatch, normalization of raw samples, an append-only
//! sample buffer, and the capture session state machine.
//!
//! The host audio subsystem itself (enumeration of hardware, stream
//! construction, the real-time callback) lives outside this crate; callers
//! hand its answers in as plain values and this crate makes every decision:
//! which devices are listed, which device a name resolves to, which sample
//! encodings are accepted, how raw samples are normalized, and what the
//! session does with each block the callback delivers.

pub mod buffer;
pub mod convert;
pub mod device;
pub mod errors;
pub mod format;
pub mod session;
