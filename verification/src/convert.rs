use vstd::prelude::*;

verus! {

/// The representations between which samples are converted.
#[derive(Clone, Copy, Debug, PartialEq, Eq, Structural)]
pub enum SampleKind {
    I8,
    I16,
    I32,
    F32,
}

/// One sample. An integer sample is a signed two's-complement value of its
/// width; a float sample is carried as the 32 bits of its binary32 encoding.
#[derive(Clone, Copy, Debug, PartialEq, Eq, Structural)]
pub enum Sample {
    I8(i8),
    I16(i16),
    I32(i32),
    F32(u32),
}

impl SampleKind {
    pub open spec fn is_integer(self) -> bool {
        self != SampleKind::F32
    }

    /// Magnitude of the most negative value of an integer representation, the
    /// amplitude that stands for full scale.
    pub open spec fn full_scale(self) -> int {
        match self {
            SampleKind::I8 => 0x80,
            SampleKind::I16 => 0x8000,
            _ => 0x8000_0000,
        }
    }

    /// Whether `value` is a value of this integer representation.
    pub open spec fn holds(self, value: int) -> bool {
        -self.full_scale() <= value < self.full_scale()
    }
}

impl Sample {
    pub open spec fn spec_kind(self) -> SampleKind {
        match self {
            Sample::I8(_) => SampleKind::I8,
            Sample::I16(_) => SampleKind::I16,
            Sample::I32(_) => SampleKind::I32,
            Sample::F32(_) => SampleKind::F32,
        }
    }

    /// The number that the sample carries: the value of an integer sample, the
    /// bit pattern of a float sample.
    pub open spec fn amplitude(self) -> int {
        match self {
            Sample::I8(v) => v as int,
            Sample::I16(v) => v as int,
            Sample::I32(v) => v as int,
            Sample::F32(bits) => bits as int,
        }
    }

    #[verifier::when_used_as_spec(spec_kind)]
    pub fn kind(self) -> (kind: SampleKind)
        ensures
            kind == self.spec_kind(),
    {
        match self {
            Sample::I8(_) => SampleKind::I8,
            Sample::I16(_) => SampleKind::I16,
            Sample::I32(_) => SampleKind::I32,
            Sample::F32(_) => SampleKind::F32,
        }
    }
}

/// The linear map between two integer representations: a value is multiplied
/// by the ratio of the full scales when the target is wider, and divided by it,
/// rounding down, when the target is narrower.
pub open spec fn rescaled(value: int, from: SampleKind, to: SampleKind) -> int {
    match (from, to) {
        (SampleKind::I8, SampleKind::I16) => value * 0x100,
        (SampleKind::I16, SampleKind::I32) => value * 0x1_0000,
        (SampleKind::I8, SampleKind::I32) => value * 0x100_0000,
        (SampleKind::I16, SampleKind::I8) => value / 0x100,
        (SampleKind::I32, SampleKind::I16) => value / 0x1_0000,
        (SampleKind::I32, SampleKind::I8) => value / 0x100_0000,
        _ => value,
    }
}

/// The integer sample of representation `kind` with the given value.
pub open spec fn integer_sample(kind: SampleKind, value: int) -> Sample {
    match kind {
        SampleKind::I8 => Sample::I8(value as i8),
        SampleKind::I16 => Sample::I16(value as i16),
        _ => Sample::I32(value as i32),
    }
}

/// Whether samples of one representation are converted to another: every
/// representation to itself, and every integer one to every integer one.
pub open spec fn spec_convertible(from: SampleKind, to: SampleKind) -> bool {
    from == to || (from.is_integer() && to.is_integer())
}

/// What a conversion gives. A sample converted to its own representation is
/// itself; between two integer representations the value is rescaled.
pub open spec fn converted(sample: Sample, to: SampleKind) -> Sample
    recommends
        spec_convertible(sample.spec_kind(), to),
{
    if sample.spec_kind() == to {
        sample
    } else {
        integer_sample(to, rescaled(sample.amplitude(), sample.spec_kind(), to))
    }
}

/// A rescaled value is a value of the target representation.
pub proof fn rescaled_in_range(value: int, from: SampleKind, to: SampleKind)
    requires
        from.is_integer(),
        to.is_integer(),
        from.holds(value),
    ensures
        to.holds(rescaled(value, from, to)),
{
}

/// Rescaling is linear in the full scales: a value keeps its share of full
/// scale exactly when the target is at least as wide, and is rounded down to
/// the next value of the target when it is narrower.
pub proof fn rescaled_is_linear(value: int, from: SampleKind, to: SampleKind)
    requires
        from.is_integer(),
        to.is_integer(),
    ensures
        to.full_scale() >= from.full_scale() ==> rescaled(value, from, to) * from.full_scale()
            == value * to.full_scale(),
        to.full_scale() < from.full_scale() ==> rescaled(value, from, to) * from.full_scale()
            <= value * to.full_scale() < (rescaled(value, from, to) + 1) * from.full_scale(),
{
    let r: int = rescaled(value, from, to);
    match (from, to) {
        (SampleKind::I8, SampleKind::I16) => {
            assert(r * 0x80 == value * 0x8000);
        },
        (SampleKind::I16, SampleKind::I32) => {
            assert(r * 0x8000 == value * 0x8000_0000);
        },
        (SampleKind::I8, SampleKind::I32) => {
            assert(r * 0x80 == value * 0x8000_0000);
        },
        (SampleKind::I16, SampleKind::I8) => {
            assert(r * 0x8000 <= value * 0x80 < (r + 1) * 0x8000);
        },
        (SampleKind::I32, SampleKind::I16) => {
            assert(r * 0x8000_0000 <= value * 0x8000 < (r + 1) * 0x8000_0000);
        },
        (SampleKind::I32, SampleKind::I8) => {
            assert(r * 0x8000_0000 <= value * 0x80 < (r + 1) * 0x8000_0000);
        },
        _ => {
            assert(from == to);
        },
    }
}

/// Rescaling to the same representation changes nothing.
pub proof fn rescaled_identity(value: int, kind: SampleKind)
    ensures
        rescaled(value, kind, kind) == value,
{
}

/// Negative full scale of one integer representation becomes negative full
/// scale of the other, and silence stays silence.
pub proof fn rescaled_keeps_full_scale(from: SampleKind, to: SampleKind)
    requires
        from.is_integer(),
        to.is_integer(),
    ensures
        rescaled(-from.full_scale(), from, to) == -to.full_scale(),
        rescaled(0, from, to) == 0,
{
}

/// Widening a value and narrowing it again gives the value back.
pub proof fn rescaled_round_trip(value: int, narrow: SampleKind, wide: SampleKind)
    requires
        narrow.is_integer(),
        wide.is_integer(),
        narrow.full_scale() <= wide.full_scale(),
    ensures
        rescaled(rescaled(value, narrow, wide), wide, narrow) == value,
{
}

/// Rescaling keeps the order of values.
pub proof fn rescaled_monotonic(a: int, b: int, from: SampleKind, to: SampleKind)
    requires
        from.is_integer(),
        to.is_integer(),
        a <= b,
    ensures
        rescaled(a, from, to) <= rescaled(b, from, to),
{
}

/// Converting a sample to its own representation gives the same sample.
pub proof fn converted_identity(sample: Sample)
    ensures
        spec_convertible(sample.spec_kind(), sample.spec_kind()),
        converted(sample, sample.spec_kind()) == sample,
{
}

/// Rescales `value`, a value of the integer representation `from`, to the
/// integer representation `to`.
pub fn rescale(value: i32, from: SampleKind, to: SampleKind) -> (out: i32)
    requires
        from.is_integer(),
        to.is_integer(),
        from.holds(value as int),
    ensures
        out as int == rescaled(value as int, from, to),
        to.holds(out as int),
{
    proof {
        rescaled_in_range(value as int, from, to);
    }
    match (from, to) {
        (SampleKind::I8, SampleKind::I16) => value * 0x100,
        (SampleKind::I16, SampleKind::I32) => value * 0x1_0000,
        (SampleKind::I8, SampleKind::I32) => value * 0x100_0000,
        (SampleKind::I16, SampleKind::I8) => floor_div(value, 0x100),
        (SampleKind::I32, SampleKind::I16) => floor_div(value, 0x1_0000),
        (SampleKind::I32, SampleKind::I8) => floor_div(value, 0x100_0000),
        _ => value,
    }
}

/// Division that rounds toward negative infinity.
fn floor_div(value: i32, divisor: i32) -> (quotient: i32)
    requires
        divisor > 1,
    ensures
        quotient as int == value as int / divisor as int,
{
    if value >= 0 {
        value / divisor
    } else {
        let below: i32 = -(value + 1);
        let steps: i32 = below / divisor;
        proof {
            let v: int = value as int;
            let d: int = divisor as int;
            let m: int = below as int;
            assert(v / d == -(m / d) - 1) by (nonlinear_arith)
                requires
                    d > 1,
                    m >= 0,
                    v == -m - 1,
            ;
        }
        -steps - 1
    }
}

#[verifier::when_used_as_spec(spec_convertible)]
pub fn convertible(from: SampleKind, to: SampleKind) -> (can: bool)
    ensures
        can == spec_convertible(from, to),
{
    let from_integer = match from {
        SampleKind::F32 => false,
        _ => true,
    };
    let to_integer = match to {
        SampleKind::F32 => false,
        _ => true,
    };
    from == to || (from_integer && to_integer)
}

/// Converts one sample to the representation `to`.
pub fn convert(sample: Sample, to: SampleKind) -> (out: Sample)
    requires
        spec_convertible(sample.spec_kind(), to),
    ensures
        out == converted(sample, to),
        out.spec_kind() == to,
        to == sample.spec_kind() ==> out == sample,
{
    let from = sample.kind();
    if from == to {
        return sample;
    }
    let value: i32 = match sample {
        Sample::I8(v) => v as i32,
        Sample::I16(v) => v as i32,
        Sample::I32(v) => v,
        Sample::F32(_) => 0,
    };
    match to {
        SampleKind::I8 => Sample::I8(rescale(value, from, to) as i8),
        SampleKind::I16 => Sample::I16(rescale(value, from, to) as i16),
        _ => Sample::I32(rescale(value, from, to)),
    }
}

} // verus!
