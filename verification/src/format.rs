use vstd::prelude::*;
use vstd::string::StringExecFns;

verus! {

/// How the samples of a container are encoded.
#[derive(Clone, Copy, Debug, PartialEq, Eq, Structural)]
pub enum SampleEncoding {
    Integer,
    Float,
}

/// The numeric representation in which a device delivers its samples.
#[derive(Clone, Copy, Debug, PartialEq, Eq, Structural)]
pub enum NativeFormat {
    I8,
    I16,
    I32,
    I64,
    U8,
    U16,
    U32,
    U64,
    F32,
    F64,
}

impl NativeFormat {
    /// Bytes that one sample of this representation occupies.
    pub open spec fn spec_sample_size(self) -> u16 {
        match self {
            NativeFormat::I8 | NativeFormat::U8 => 1,
            NativeFormat::I16 | NativeFormat::U16 => 2,
            NativeFormat::I32 | NativeFormat::U32 | NativeFormat::F32 => 4,
            NativeFormat::I64 | NativeFormat::U64 | NativeFormat::F64 => 8,
        }
    }

    /// Whether the representation is a floating-point one.
    pub open spec fn spec_is_float(self) -> bool {
        self == NativeFormat::F32 || self == NativeFormat::F64
    }

    /// Whether a recording can be made in this representation: the signed
    /// integers of 8, 16 and 32 bits and the 32-bit float.
    pub open spec fn spec_is_supported(self) -> bool {
        self == NativeFormat::I8 || self == NativeFormat::I16 || self == NativeFormat::I32 || self
            == NativeFormat::F32
    }

    /// The name under which the representation is shown.
    pub open spec fn spec_name(self) -> Seq<char> {
        match self {
            NativeFormat::I8 => "i8"@,
            NativeFormat::I16 => "i16"@,
            NativeFormat::I32 => "i32"@,
            NativeFormat::I64 => "i64"@,
            NativeFormat::U8 => "u8"@,
            NativeFormat::U16 => "u16"@,
            NativeFormat::U32 => "u32"@,
            NativeFormat::U64 => "u64"@,
            NativeFormat::F32 => "f32"@,
            NativeFormat::F64 => "f64"@,
        }
    }

    pub fn name(self) -> (name: String)
        ensures
            name@ == self.spec_name(),
    {
        match self {
            NativeFormat::I8 => String::from_str("i8"),
            NativeFormat::I16 => String::from_str("i16"),
            NativeFormat::I32 => String::from_str("i32"),
            NativeFormat::I64 => String::from_str("i64"),
            NativeFormat::U8 => String::from_str("u8"),
            NativeFormat::U16 => String::from_str("u16"),
            NativeFormat::U32 => String::from_str("u32"),
            NativeFormat::U64 => String::from_str("u64"),
            NativeFormat::F32 => String::from_str("f32"),
            NativeFormat::F64 => String::from_str("f64"),
        }
    }

    #[verifier::when_used_as_spec(spec_sample_size)]
    pub fn sample_size(self) -> (bytes: u16)
        ensures
            bytes == self.spec_sample_size(),
    {
        match self {
            NativeFormat::I8 | NativeFormat::U8 => 1,
            NativeFormat::I16 | NativeFormat::U16 => 2,
            NativeFormat::I32 | NativeFormat::U32 | NativeFormat::F32 => 4,
            NativeFormat::I64 | NativeFormat::U64 | NativeFormat::F64 => 8,
        }
    }

    #[verifier::when_used_as_spec(spec_is_float)]
    pub fn is_float(self) -> (float: bool)
        ensures
            float == self.spec_is_float(),
    {
        match self {
            NativeFormat::F32 | NativeFormat::F64 => true,
            _ => false,
        }
    }

    #[verifier::when_used_as_spec(spec_is_supported)]
    pub fn is_supported(self) -> (supported: bool)
        ensures
            supported == self.spec_is_supported(),
    {
        match self {
            NativeFormat::I8 | NativeFormat::I16 | NativeFormat::I32 | NativeFormat::F32 => true,
            _ => false,
        }
    }
}

/// What a device reports of itself: how it delivers samples when nothing is
/// negotiated.
#[derive(Clone, Copy, Debug, PartialEq, Eq, Structural)]
pub struct DeviceConfig {
    pub channels: u16,
    pub sample_rate: u32,
    pub sample_format: NativeFormat,
}

/// The format that a container declares in its header.
#[derive(Clone, Copy, Debug, PartialEq, Eq, Structural)]
pub struct StreamFormat {
    pub channel_count: u16,
    pub sample_rate_hz: u32,
    pub bits_per_sample: u16,
    pub encoding: SampleEncoding,
}

/// The container encoding that holds samples of a native representation.
pub open spec fn encoding_of(format: NativeFormat) -> SampleEncoding {
    if format.spec_is_float() {
        SampleEncoding::Float
    } else {
        SampleEncoding::Integer
    }
}

/// The container format for a device: its channels and rate as reported, eight
/// bits for each byte of a sample, and the encoding of its representation.
pub open spec fn stream_format_of(config: DeviceConfig) -> StreamFormat {
    StreamFormat {
        channel_count: config.channels,
        sample_rate_hz: config.sample_rate,
        bits_per_sample: (config.sample_format.spec_sample_size() * 8) as u16,
        encoding: encoding_of(config.sample_format),
    }
}

pub fn sample_format(format: NativeFormat) -> (encoding: SampleEncoding)
    ensures
        encoding == encoding_of(format),
{
    if format.is_float() {
        SampleEncoding::Float
    } else {
        SampleEncoding::Integer
    }
}

pub fn wav_spec_from_config(config: &DeviceConfig) -> (spec: StreamFormat)
    ensures
        spec == stream_format_of(*config),
        spec.bits_per_sample as int == 8 * config.sample_format.spec_sample_size(),
{
    StreamFormat {
        channel_count: config.channels,
        sample_rate_hz: config.sample_rate,
        bits_per_sample: config.sample_format.sample_size() * 8,
        encoding: sample_format(config.sample_format),
    }
}

} // verus!
