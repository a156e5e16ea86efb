//! The failures the capture pipeline can report.

use vstd::prelude::*;

verus! {

/// Every way the pipeline can fail. None of these is retried by the library.
#[derive(Clone, Copy, Debug, PartialEq, Eq, Structural)]
pub enum CaptureError {
    /// No capture device exists on the host.
    DeviceUnavailable,
    /// The device reports no input format that the pipeline can use.
    FormatUnsupported,
    /// The container sink could not be opened for the requested format.
    SinkCreateFailed,
    /// The container could not be closed with a header that matches its payload.
    FlushFailed,
    /// The session's writer was already reclaimed by an earlier finalize.
    AlreadyFinalized,
    /// A two-channel payload does not hold a whole number of frames.
    OddSampleCount,
}

} // verus!
