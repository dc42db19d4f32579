use vstd::prelude::*;
use crate::convert::{convert, converted, convertible, spec_convertible, Sample, SampleKind};
use crate::error::RecorderError;
use crate::format::{stream_format_of, wav_spec_from_config, DeviceConfig, NativeFormat, StreamFormat};

verus! {

/// How an attempt to take the encoder's lock without waiting ended.
#[derive(Clone, Copy, Debug, PartialEq, Eq, Structural)]
pub enum LockAttempt {
    Acquired,
    Contended,
}

/// What the header of a finished container declares.
#[derive(Clone, Copy, Debug, PartialEq, Eq, Structural)]
pub struct Header {
    pub format: StreamFormat,
    /// Samples in the container, over all channels.
    pub samples: u64,
    /// Whole frames in the container: one sample for every channel.
    pub frames: u64,
}

/// An open container: its declared format, the representation of the samples
/// it takes, and how many it has taken so far.
#[derive(Clone, Copy, Debug, PartialEq, Eq, Structural)]
pub struct ContainerEncoder {
    pub format: StreamFormat,
    pub kind: SampleKind,
    pub samples: u64,
}

/// The sample representation in which a device's samples are stored, where
/// there is one.
pub open spec fn stored_kind(format: NativeFormat) -> Option<SampleKind> {
    match format {
        NativeFormat::I8 => Some(SampleKind::I8),
        NativeFormat::I16 => Some(SampleKind::I16),
        NativeFormat::I32 => Some(SampleKind::I32),
        NativeFormat::F32 => Some(SampleKind::F32),
        _ => None,
    }
}

/// The encoder with which a recording from a device begins.
pub open spec fn fresh_encoder(config: DeviceConfig) -> ContainerEncoder
    recommends
        config.sample_format.spec_is_supported(),
{
    ContainerEncoder {
        format: stream_format_of(config),
        kind: stored_kind(config.sample_format).unwrap(),
        samples: 0,
    }
}

/// Whole frames among `samples` samples of `channels` channels.
pub open spec fn frames_of(samples: u64, channels: u16) -> u64 {
    if channels == 0 {
        0
    } else {
        (samples / (channels as u64)) as u64
    }
}

/// The header that closes an encoder.
pub open spec fn header_of(encoder: ContainerEncoder) -> Header {
    Header {
        format: encoder.format,
        samples: encoder.samples,
        frames: frames_of(encoder.samples, encoder.format.channel_count),
    }
}

/// An encoder and the samples handed on to its file, in their order.
pub struct Delivery {
    pub encoder: ContainerEncoder,
    pub written: Seq<Sample>,
}

/// Whether every sample of a buffer is converted to the representation
/// `kind`.
pub open spec fn all_convertible(input: Seq<Sample>, kind: SampleKind) -> bool {
    forall|i: int| 0 <= i < input.len() ==> spec_convertible((#[trigger] input[i]).spec_kind(), kind)
}

/// Whether a buffer can be offered to the shared encoder slot: where there
/// is an encoder, every sample is converted to its representation.
pub open spec fn offerable(slot: Option<ContainerEncoder>, input: Seq<Sample>) -> bool {
    match slot {
        Some(encoder) => all_convertible(input, encoder.kind),
        None => true,
    }
}

/// What a buffer does to an open encoder. Each sample in turn is converted to
/// the encoder's representation, counted and handed on; once the count is
/// full, samples are dropped.
pub open spec fn delivered(encoder: ContainerEncoder, input: Seq<Sample>) -> Delivery
    recommends
        all_convertible(input, encoder.kind),
    decreases input.len(),
{
    if input.len() == 0 {
        Delivery { encoder, written: Seq::empty() }
    } else {
        let before = delivered(encoder, input.drop_last());
        let sample = converted(input.last(), encoder.kind);
        if before.encoder.accepts(sample) {
            Delivery {
                encoder: before.encoder.after_sample(sample),
                written: before.written.push(sample),
            }
        } else {
            before
        }
    }
}

/// What a buffer does to the shared encoder slot, given how the attempt to
/// lock it ended. Under contention, or when the encoder was already taken
/// for finalizing, the whole buffer is dropped.
pub open spec fn slot_after(
    slot: Option<ContainerEncoder>,
    lock: LockAttempt,
    input: Seq<Sample>,
) -> Option<ContainerEncoder> {
    match (lock, slot) {
        (LockAttempt::Acquired, Some(encoder)) => Some(delivered(encoder, input).encoder),
        _ => slot,
    }
}

/// The encoder slot after the file refused `refused` of the samples that
/// were handed on.
pub open spec fn slot_taken_back(slot: Option<ContainerEncoder>, refused: nat) -> Option<
    ContainerEncoder,
> {
    match slot {
        Some(encoder) => Some(encoder.taken_back(refused)),
        None => None,
    }
}

/// The samples of a buffer that are handed on to the file.
pub open spec fn written_of(
    slot: Option<ContainerEncoder>,
    lock: LockAttempt,
    input: Seq<Sample>,
) -> Seq<Sample> {
    match (lock, slot) {
        (LockAttempt::Acquired, Some(encoder)) => delivered(encoder, input).written,
        _ => Seq::empty(),
    }
}

impl ContainerEncoder {
    /// Whether the encoder takes `value`: it is of the encoder's
    /// representation, and the count has room for it.
    pub open spec fn accepts(self, value: Sample) -> bool {
        value.spec_kind() == self.kind && self.samples < u64::MAX
    }

    /// The encoder after `value` was offered to it.
    pub open spec fn after_sample(self, value: Sample) -> ContainerEncoder {
        if self.accepts(value) {
            ContainerEncoder { samples: (self.samples + 1) as u64, ..self }
        } else {
            self
        }
    }

    /// Opens an encoder for a device. `opened` says whether the output file
    /// could be created.
    pub fn create(config: &DeviceConfig, opened: bool) -> (made: Result<
        ContainerEncoder,
        RecorderError,
    >)
        ensures
            !opened ==> made == Err::<ContainerEncoder, RecorderError>(
                RecorderError::EncoderCreateFailed,
            ),
            opened && !config.sample_format.spec_is_supported() ==> made == Err::<
                ContainerEncoder,
                RecorderError,
            >(RecorderError::UnsupportedFormat(config.sample_format)),
            opened && config.sample_format.spec_is_supported() ==> made == Ok::<
                ContainerEncoder,
                RecorderError,
            >(fresh_encoder(*config)),
    {
        if !opened {
            return Err(RecorderError::EncoderCreateFailed);
        }
        let kind = match config.sample_format {
            NativeFormat::I8 => SampleKind::I8,
            NativeFormat::I16 => SampleKind::I16,
            NativeFormat::I32 => SampleKind::I32,
            NativeFormat::F32 => SampleKind::F32,
            _ => {
                return Err(RecorderError::UnsupportedFormat(config.sample_format));
            },
        };
        Ok(ContainerEncoder { format: wav_spec_from_config(config), kind, samples: 0 })
    }

    /// Offers one sample. It is counted when the encoder accepts it, and
    /// dropped without a report when it does not.
    pub fn write_sample(&mut self, value: Sample)
        ensures
            *final(self) == old(self).after_sample(value),
    {
        if value.kind() == self.kind && self.samples < u64::MAX {
            self.samples = self.samples + 1;
        }
    }

    /// The encoder after the file refused `refused` of the samples that
    /// were handed on.
    pub open spec fn taken_back(self, refused: nat) -> ContainerEncoder {
        ContainerEncoder {
            samples: if refused <= self.samples {
                (self.samples - refused) as u64
            } else {
                0
            },
            ..self
        }
    }

    /// Takes back the count of one sample that the file refused after it
    /// was handed on. The failure is not reported further.
    pub fn sample_dropped(&mut self)
        ensures
            *final(self) == old(self).taken_back(1),
    {
        if self.samples > 0 {
            self.samples = self.samples - 1;
        }
    }

    /// Whole frames taken so far.
    pub fn frames(&self) -> (frames: u64)
        ensures
            frames == frames_of(self.samples, self.format.channel_count),
            frames as int * self.format.channel_count as int <= self.samples as int,
    {
        let channels: u64 = self.format.channel_count as u64;
        if channels == 0 {
            0
        } else {
            let frames: u64 = self.samples / channels;
            assert(frames as int * channels as int <= self.samples as int) by (nonlinear_arith)
                requires
                    channels > 0,
                    frames as int == self.samples as int / channels as int,
            ;
            frames
        }
    }

    /// Closes the encoder, which is used up. `flushed` says whether the
    /// header was patched and the file flushed.
    pub fn finalize(self, flushed: bool) -> (closed: Result<Header, RecorderError>)
        ensures
            flushed ==> closed == Ok::<Header, RecorderError>(header_of(self)),
            !flushed ==> closed == Err::<Header, RecorderError>(RecorderError::FinalizeFailed),
            closed.is_ok() ==> closed.unwrap().frames as int * self.format.channel_count as int
                <= self.samples as int,
    {
        if flushed {
            Ok(Header { format: self.format, samples: self.samples, frames: self.frames() })
        } else {
            Err(RecorderError::FinalizeFailed)
        }
    }
}

/// Handles one buffer from the device. When the lock was acquired and the
/// encoder is still there, every sample is converted to the encoder's
/// representation and offered to it; the samples that it took are returned, to
/// be handed on to the file. Otherwise the buffer is dropped.
pub fn write_input_data(
    input: &Vec<Sample>,
    lock: LockAttempt,
    writer: &mut Option<ContainerEncoder>,
) -> (written: Vec<Sample>)
    requires
        offerable(*old(writer), input@),
    ensures
        *final(writer) == slot_after(*old(writer), lock, input@),
        written@ == written_of(*old(writer), lock, input@),
{
    let mut written: Vec<Sample> = Vec::new();
    if lock == LockAttempt::Contended {
        return written;
    }
    let mut encoder = match *writer {
        Some(encoder) => encoder,
        None => {
            return written;
        },
    };
    let ghost start = encoder;
    let mut i: usize = 0;
    assert(input@.take(0) =~= Seq::<Sample>::empty());
    while i < input.len()
        invariant
            i <= input.len(),
            all_convertible(input@, start.kind),
            encoder.kind == start.kind,
            encoder == delivered(start, input@.take(i as int)).encoder,
            written@ == delivered(start, input@.take(i as int)).written,
        decreases input.len() - i,
    {
        proof {
            let next = input@.take(i + 1);
            assert(next.drop_last() =~= input@.take(i as int));
            assert(next.last() == input@[i as int]);
        }
        let sample = convert(input[i], encoder.kind);
        if encoder.samples < u64::MAX {
            encoder.write_sample(sample);
            written.push(sample);
        }
        i += 1;
    }
    assert(input@.take(input.len() as int) =~= input@);
    *writer = Some(encoder);
    written
}

/// Whether a buffer can be offered to the slot.
pub fn is_offerable(slot: &Option<ContainerEncoder>, input: &Vec<Sample>) -> (can: bool)
    ensures
        can == offerable(*slot, input@),
{
    match slot {
        None => true,
        Some(encoder) => {
            let mut i: usize = 0;
            while i < input.len()
                invariant
                    i <= input.len(),
                    *slot == Some(*encoder),
                    forall|j: int|
                        0 <= j < i ==> spec_convertible(
                            (#[trigger] input@[j]).spec_kind(),
                            encoder.kind,
                        ),
                decreases input.len() - i,
            {
                if !convertible(input[i].kind(), encoder.kind) {
                    assert(!spec_convertible(input@[i as int].spec_kind(), encoder.kind));
                    return false;
                }
                i += 1;
            }
            true
        },
    }
}

} // verus!
