use vstd::prelude::*;
use vstd::string::StringExecFns;
use crate::format::NativeFormat;

verus! {

/// Why a request to the recorder was not carried out.
#[derive(Clone, Copy, Debug, PartialEq, Eq, Structural)]
pub enum RecorderError {
    /// No input device has the requested name, or there is no default device.
    DeviceNotFound,
    /// The platform refused to start the stream.
    DeviceBusyOrUnavailable,
    /// The output file could not be opened for writing.
    EncoderCreateFailed,
    /// The header could not be patched or flushed when the recording ended.
    FinalizeFailed,
    /// The device delivers samples in this representation, which is not
    /// recorded.
    UnsupportedFormat(NativeFormat),
    /// A recording is already running.
    AlreadyRecording,
    /// No recording is running.
    NotRecording,
}

impl RecorderError {
    /// The text shown for each error.
    pub open spec fn spec_message(self) -> Seq<char> {
        match self {
            RecorderError::DeviceNotFound => "failed to find input device"@,
            RecorderError::DeviceBusyOrUnavailable => "input device is busy or unavailable"@,
            RecorderError::EncoderCreateFailed => "failed to create the output file"@,
            RecorderError::FinalizeFailed => "failed to finalize the output file"@,
            RecorderError::UnsupportedFormat(format) => "Unsupported sample format '"@
                + format.spec_name() + "'"@,
            RecorderError::AlreadyRecording => "a recording is already running"@,
            RecorderError::NotRecording => "no recording is running"@,
        }
    }

    pub fn message(&self) -> (text: String)
        ensures
            text@ == self.spec_message(),
    {
        match self {
            RecorderError::DeviceNotFound => String::from_str("failed to find input device"),
            RecorderError::DeviceBusyOrUnavailable => String::from_str(
                "input device is busy or unavailable",
            ),
            RecorderError::EncoderCreateFailed => String::from_str(
                "failed to create the output file",
            ),
            RecorderError::FinalizeFailed => String::from_str("failed to finalize the output file"),
            RecorderError::UnsupportedFormat(format) => String::from_str(
                "Unsupported sample format '",
            ).concat(format.name().as_str()).concat("'"),
            RecorderError::AlreadyRecording => String::from_str("a recording is already running"),
            RecorderError::NotRecording => String::from_str("no recording is running"),
        }
    }
}

} // verus!
