use vstd::prelude::*;
use crate::convert::Sample;
use crate::device::{resolve, resolves_to, unresolvable, DeviceInfo};
use crate::encoder::{
    fresh_encoder, header_of, offerable, slot_after, slot_taken_back, write_input_data,
    written_of,
    ContainerEncoder, Header, LockAttempt,
};
use crate::error::RecorderError;
use crate::format::{stream_format_of, wav_spec_from_config, DeviceConfig, StreamFormat};

verus! {

/// The two states of a recorder.
#[derive(Clone, Copy, Debug, PartialEq, Eq, Structural)]
pub enum SessionState {
    Idle,
    Recording,
}

/// How the attempt to open the output file and to start the device ended.
#[derive(Clone, Copy, Debug, PartialEq, Eq, Structural)]
pub enum StartOutcome {
    /// The device is no longer there.
    DeviceMissing,
    /// The output file could not be created.
    EncoderRefused,
    /// The file was created, but no stream runs: the device refused, or none
    /// was built for its format.
    StreamRefused,
    /// The file is open and the device streams.
    Streaming,
}

/// One recording at a time, from one device to one file. The recorder is
/// recording exactly while it holds an encoder.
pub struct Recorder {
    pub writer: Option<ContainerEncoder>,
    pub path: String,
    pub config: DeviceConfig,
    pub device: usize,
}

impl Recorder {
    pub open spec fn spec_state(&self) -> SessionState {
        if self.writer.is_some() {
            SessionState::Recording
        } else {
            SessionState::Idle
        }
    }

    /// The error with which a start from this state ends, given the outcome
    /// of the outside work, if it ends with one. A running recording comes
    /// first; then a device that is gone; then a file that could not be
    /// created, whatever the format; then a format that is not recorded; then
    /// a device that refused to stream.
    pub open spec fn start_error(&self, outcome: StartOutcome) -> Option<RecorderError> {
        if self.writer.is_some() {
            Some(RecorderError::AlreadyRecording)
        } else if outcome == StartOutcome::DeviceMissing {
            Some(RecorderError::DeviceNotFound)
        } else if outcome == StartOutcome::EncoderRefused {
            Some(RecorderError::EncoderCreateFailed)
        } else if !self.config.sample_format.spec_is_supported() {
            Some(RecorderError::UnsupportedFormat(self.config.sample_format))
        } else if outcome == StartOutcome::StreamRefused {
            Some(RecorderError::DeviceBusyOrUnavailable)
        } else {
            None
        }
    }

    /// A recorder for the device that `requested` names among `devices`,
    /// writing to `path`. It starts idle, with the device's own format.
    pub fn new(
        path: String,
        requested: &String,
        devices: &Vec<DeviceInfo>,
        default_device: Option<usize>,
    ) -> (made: Result<Recorder, RecorderError>)
        ensures
            match made {
                Ok(recorder) => {
                    &&& resolves_to(requested@, devices@, default_device, recorder.device as int)
                    &&& recorder.config == devices@[recorder.device as int].config
                    &&& recorder.path == path
                    &&& recorder.writer.is_none()
                    &&& recorder.spec_state() == SessionState::Idle
                },
                Err(e) => e == RecorderError::DeviceNotFound && unresolvable(
                    requested@,
                    devices@,
                    default_device,
                ),
            },
    {
        match resolve(requested, devices, default_device) {
            Ok(index) => Ok(
                Recorder { writer: None, path, config: devices[index].config, device: index },
            ),
            Err(e) => Err(e),
        }
    }

    #[verifier::when_used_as_spec(spec_state)]
    pub fn state(&self) -> (state: SessionState)
        ensures
            state == self.spec_state(),
    {
        if self.writer.is_some() {
            SessionState::Recording
        } else {
            SessionState::Idle
        }
    }

    /// Where the recording is written.
    pub fn path(&self) -> (path: &String)
        ensures
            path == &self.path,
    {
        &self.path
    }

    /// Decides whether a start may be attempted, before the file or the
    /// device is touched, and gives the format in which to create the file.
    pub fn plan_start(&self) -> (plan: Result<StreamFormat, RecorderError>)
        ensures
            self.writer.is_some() ==> plan == Err::<StreamFormat, RecorderError>(
                RecorderError::AlreadyRecording,
            ),
            self.writer.is_none() ==> plan == Ok::<StreamFormat, RecorderError>(
                stream_format_of(self.config),
            ),
    {
        if self.writer.is_some() {
            Err(RecorderError::AlreadyRecording)
        } else {
            Ok(wav_spec_from_config(&self.config))
        }
    }

    /// Takes the outcome of a start attempt. The recorder is recording
    /// afterwards exactly when it was idle, its format is one that is recorded,
    /// and the device streams; in every other case it is left as it was.
    pub fn begin_record(&mut self, outcome: StartOutcome) -> (started: Result<(), RecorderError>)
        ensures
            final(self).path == old(self).path,
            final(self).config == old(self).config,
            final(self).device == old(self).device,
            match old(self).start_error(outcome) {
                Some(e) => started == Err::<(), RecorderError>(e) && final(self).writer == old(
                    self,
                ).writer,
                None => started.is_ok() && final(self).writer == Some(
                    fresh_encoder(old(self).config),
                ),
            },
    {
        if self.writer.is_some() {
            return Err(RecorderError::AlreadyRecording);
        }
        match outcome {
            StartOutcome::DeviceMissing => Err(RecorderError::DeviceNotFound),
            StartOutcome::EncoderRefused => Err(RecorderError::EncoderCreateFailed),
            StartOutcome::StreamRefused => {
                if self.config.sample_format.is_supported() {
                    Err(RecorderError::DeviceBusyOrUnavailable)
                } else {
                    Err(RecorderError::UnsupportedFormat(self.config.sample_format))
                }
            },
            StartOutcome::Streaming => match ContainerEncoder::create(&self.config, true) {
                Ok(encoder) => {
                    self.writer = Some(encoder);
                    Ok(())
                },
                Err(e) => Err(e),
            },
        }
    }

    /// Handles one buffer from the device while the stream runs, and returns
    /// the samples to hand on to the file.
    pub fn deliver(&mut self, input: &Vec<Sample>, lock: LockAttempt) -> (written: Vec<Sample>)
        requires
            offerable(old(self).writer, input@),
        ensures
            final(self).path == old(self).path,
            final(self).config == old(self).config,
            final(self).device == old(self).device,
            final(self).writer == slot_after(old(self).writer, lock, input@),
            written@ == written_of(old(self).writer, lock, input@),
            final(self).spec_state() == old(self).spec_state(),
    {
        write_input_data(input, lock, &mut self.writer)
    }

    /// Takes back the count of one sample that the file refused after it
    /// was handed on. An idle recorder is left as it was.
    pub fn sample_dropped(&mut self)
        ensures
            final(self).path == old(self).path,
            final(self).config == old(self).config,
            final(self).device == old(self).device,
            final(self).writer == slot_taken_back(old(self).writer, 1),
    {
        match self.writer {
            Some(mut encoder) => {
                encoder.sample_dropped();
                self.writer = Some(encoder);
            },
            None => {},
        }
    }

    /// Ends the recording. `flushed` says whether the header was patched and
    /// the file flushed. An idle recorder is left as it was; a recording one
    /// becomes idle whether or not the file could be closed.
    pub fn stop_record(&mut self, flushed: bool) -> (stopped: Result<Header, RecorderError>)
        ensures
            final(self).path == old(self).path,
            final(self).config == old(self).config,
            final(self).device == old(self).device,
            final(self).writer.is_none(),
            final(self).spec_state() == SessionState::Idle,
            match old(self).writer {
                None => stopped == Err::<Header, RecorderError>(RecorderError::NotRecording),
                Some(encoder) => if flushed {
                    stopped == Ok::<Header, RecorderError>(header_of(encoder))
                } else {
                    stopped == Err::<Header, RecorderError>(RecorderError::FinalizeFailed)
                },
            },
    {
        match self.writer.take() {
            None => Err(RecorderError::NotRecording),
            Some(encoder) => encoder.finalize(flushed),
        }
    }
}

} // verus!
