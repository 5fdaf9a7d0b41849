use vstd::prelude::*;

verus! {

/// Every failure the recorder can report.
#[derive(Debug, Clone, Copy, PartialEq, Eq, Structural)]
pub enum RecorderError {
    /// A builder value is out of range.
    ConfigurationInvalid,
    /// The named window or process is absent at start.
    TargetNotFound,
    /// A required audio device is missing or busy.
    DeviceUnavailable,
    /// No usable encoder backend.
    EncoderInitFailed,
    /// The capture target disappeared mid-recording.
    CaptureSessionLost,
    /// Writing or finalizing a container failed.
    IoError,
    /// A recording is active, or already took place, on this instance.
    AlreadyRecording,
    /// The operation needs an active recording.
    NotRecording,
}

} // verus!
