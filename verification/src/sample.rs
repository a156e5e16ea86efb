//! Device samples and their normalisation to signed 16-bit values.

use vstd::arithmetic::div_mod::{lemma_basic_div, lemma_fundamental_div_mod, lemma_mod_bound};
use vstd::arithmetic::power2::{
    lemma2_to64, lemma2_to64_rest, lemma_pow2_pos, lemma_pow2_strictly_increases, pow2,
};
use vstd::bits::lemma_u64_shl_is_mul;
use vstd::prelude::*;
use crate::format::SampleKind;

verus! {

/// The amplitude that a float sample of 1.0 is scaled to.
pub const FULL_SCALE: i32 = 32767;

/// What has to be subtracted from an unsigned sample to centre it on zero.
pub const UNSIGNED_MIDPOINT: i32 = 32768;

/// The sign bit of a single-precision float.
pub const SIGN_BIT: u32 = 0x8000_0000;

/// Number of values of the 23-bit fraction field of a single-precision
/// float, which is also the weight of its hidden leading bit.
pub const FRACTION_RANGE: u32 = 0x80_0000;

/// The bit pattern of the float 1.0.
pub const FLOAT_ONE: u32 = 0x3f80_0000;

/// One sample as the device delivered it, tagged with its kind.
#[derive(Clone, Copy, Debug, PartialEq, Eq, Structural)]
pub enum RawSample {
    /// An unsigned 16-bit sample.
    UnsignedInt(u16),
    /// A signed 16-bit sample.
    SignedInt(i16),
    /// A single-precision float sample, given by its IEEE 754 bit pattern.
    Float(u32),
}

impl RawSample {
    /// The kind this sample is tagged with.
    pub open spec fn kind_of(self) -> SampleKind {
        match self {
            RawSample::UnsignedInt(_) => SampleKind::UnsignedInt,
            RawSample::SignedInt(_) => SampleKind::SignedInt,
            RawSample::Float(_) => SampleKind::Float,
        }
    }

    /// The kind this sample is tagged with.
    pub fn kind(&self) -> (kind: SampleKind)
        ensures
            kind == self.kind_of(),
    {
        match self {
            RawSample::UnsignedInt(_) => SampleKind::UnsignedInt,
            RawSample::SignedInt(_) => SampleKind::SignedInt,
            RawSample::Float(_) => SampleKind::Float,
        }
    }
}

/// `value` limited to the signed 16-bit range.
pub open spec fn clamp16(value: int) -> int {
    if value < i16::MIN {
        i16::MIN as int
    } else if value > i16::MAX {
        i16::MAX as int
    } else {
        value
    }
}

/// Whether a float has its sign bit set.
pub open spec fn float_negative(bits: u32) -> bool {
    bits >= SIGN_BIT
}

/// The exponent field of a float, bits 23 to 30.
pub open spec fn float_exponent(bits: u32) -> int {
    (bits as int / FRACTION_RANGE as int) % 256
}

/// The fraction field of a float, bits 0 to 22.
pub open spec fn float_fraction(bits: u32) -> int {
    bits as int % FRACTION_RANGE as int
}

/// Whether a bit pattern is no number at all.
pub open spec fn float_is_nan(bits: u32) -> bool {
    float_exponent(bits) == 255 && float_fraction(bits) != 0
}

/// Whether a bit pattern stands for plus or minus infinity.
pub open spec fn float_is_infinite(bits: u32) -> bool {
    float_exponent(bits) == 255 && float_fraction(bits) == 0
}

/// The whole number `s` for which a finite float's magnitude is
/// `s * 2^float_power`: the fraction, with the hidden leading bit unless the
/// float is subnormal.
pub open spec fn float_significand(bits: u32) -> int {
    if float_exponent(bits) == 0 {
        float_fraction(bits)
    } else {
        FRACTION_RANGE + float_fraction(bits)
    }
}

/// The power of two that a finite float's significand is multiplied by.
pub open spec fn float_power(bits: u32) -> int {
    if float_exponent(bits) == 0 {
        -149
    } else {
        float_exponent(bits) - 150
    }
}

/// `amount * 2^power` as a whole number: exact where `power` is not
/// negative, else rounded to the nearest whole number, a half rounding
/// upwards. `amount` is not negative.
pub open spec fn times_power_of_two(amount: int, power: int) -> int {
    if power >= 0 {
        amount * pow2(power as nat)
    } else {
        let unit = pow2((-power) as nat) as int;
        (2 * amount + unit) / (2 * unit)
    }
}

/// The magnitude of a finite float, multiplied by `FULL_SCALE` and rounded
/// to the nearest whole number, a half rounding away from zero.
pub open spec fn float_amplitude(bits: u32) -> int {
    times_power_of_two(float_significand(bits) * FULL_SCALE, float_power(bits))
}

/// The signed 16-bit value that stands for a float sample: the sample times
/// `FULL_SCALE`, rounded and limited to the 16-bit range. Infinities go to
/// the ends of the range and what is no number goes to silence.
pub open spec fn normalized_float(bits: u32) -> int {
    if float_is_nan(bits) {
        0
    } else if float_is_infinite(bits) {
        if float_negative(bits) {
            i16::MIN as int
        } else {
            i16::MAX as int
        }
    } else if float_negative(bits) {
        clamp16(-float_amplitude(bits))
    } else {
        clamp16(float_amplitude(bits))
    }
}

/// The signed 16-bit value that stands for a device sample: an unsigned
/// sample moved down by half its range, a signed sample as it is, a float
/// scaled by `FULL_SCALE`, rounded and limited to the 16-bit range.
pub open spec fn normalized(sample: RawSample) -> i16 {
    match sample {
        RawSample::UnsignedInt(value) => (value - UNSIGNED_MIDPOINT) as i16,
        RawSample::SignedInt(value) => value,
        RawSample::Float(bits) => normalized_float(bits) as i16,
    }
}

/// A float of magnitude 2 or more, scaled, lies beyond the 16-bit range.
proof fn lemma_loud_floats_saturate(bits: u32)
    requires
        128 <= float_exponent(bits) < 255,
    ensures
        float_amplitude(bits) > i16::MAX,
{
    let amount = float_significand(bits) * FULL_SCALE;
    let power = float_power(bits);
    assert(amount >= 0x80_0000 * 32767);
    if power >= 0 {
        lemma_pow2_pos(power as nat);
        assert(amount * pow2(power as nat) >= amount) by (nonlinear_arith)
            requires
                amount >= 0,
                pow2(power as nat) >= 1,
        ;
    } else {
        let unit = pow2((-power) as nat) as int;
        lemma2_to64();
        lemma_pow2_pos((-power) as nat);
        if -power < 22 {
            lemma_pow2_strictly_increases((-power) as nat, 22);
        }
        assert(unit <= 0x40_0000);
        assert((2 * amount + unit) / (2 * unit) >= 32768) by (nonlinear_arith)
            requires
                2 * amount + unit >= 32768 * (2 * unit),
                unit > 0,
        ;
    }
}

/// A float of magnitude below 2^-17, scaled, rounds to nothing.
proof fn lemma_faint_floats_vanish(bits: u32)
    requires
        float_exponent(bits) < 110,
    ensures
        float_amplitude(bits) == 0,
{
    let amount = float_significand(bits) * FULL_SCALE;
    let power = float_power(bits);
    let unit = pow2((-power) as nat) as int;
    lemma2_to64_rest();
    if -power > 41 {
        lemma_pow2_strictly_increases(41, (-power) as nat);
    }
    assert(unit >= 0x200_0000_0000);
    assert(0 <= 2 * amount < 0x100_0000_0000);
    lemma_basic_div(2 * amount + unit, 2 * unit);
}

/// Maps a float sample into the signed 16-bit domain of the container.
fn normalize_float(bits: u32) -> (value: i16)
    ensures
        value == normalized_float(bits),
{
    let negative: bool = bits >= SIGN_BIT;
    let exponent: u32 = (bits / FRACTION_RANGE) % 256;
    let fraction: u32 = bits % FRACTION_RANGE;
    if exponent == 255 {
        if fraction != 0 {
            return 0;
        }
        return if negative {
            i16::MIN
        } else {
            i16::MAX
        };
    }
    if exponent >= 128 {
        proof {
            lemma_loud_floats_saturate(bits);
        }
        return if negative {
            i16::MIN
        } else {
            i16::MAX
        };
    }
    if exponent < 110 {
        proof {
            lemma_faint_floats_vanish(bits);
        }
        return 0;
    }
    let shift: u64 = (150 - exponent) as u64;
    proof {
        lemma2_to64();
        lemma2_to64_rest();
        if shift < 40 {
            lemma_pow2_strictly_increases(shift as nat, 40);
        }
        if shift > 23 {
            lemma_pow2_strictly_increases(23, shift as nat);
        }
        lemma_u64_shl_is_mul(1, shift);
    }
    let unit: u64 = 1u64 << shift;
    let amount: u64 = (FRACTION_RANGE as u64 + fraction as u64) * (FULL_SCALE as u64);
    let rounded: u64 = (2 * amount + unit) / (2 * unit);
    assert(rounded == float_amplitude(bits));
    if negative {
        if rounded >= 32768 {
            i16::MIN
        } else {
            -(rounded as i16)
        }
    } else {
        if rounded >= 32767 {
            i16::MAX
        } else {
            rounded as i16
        }
    }
}

/// Maps one device sample into the signed 16-bit domain of the container.
pub fn normalize(sample: RawSample) -> (value: i16)
    ensures
        value == normalized(sample),
{
    match sample {
        RawSample::UnsignedInt(raw) => {
            let wide: i32 = raw as i32;
            (wide - UNSIGNED_MIDPOINT) as i16
        },
        RawSample::SignedInt(raw) => raw,
        RawSample::Float(bits) => normalize_float(bits),
    }
}

/// The smallest sample of a kind's nominal domain: for floats, -1.0.
pub open spec fn lowest(kind: SampleKind) -> RawSample {
    match kind {
        SampleKind::UnsignedInt => RawSample::UnsignedInt(u16::MIN),
        SampleKind::SignedInt => RawSample::SignedInt(i16::MIN),
        SampleKind::Float => RawSample::Float((SIGN_BIT + FLOAT_ONE) as u32),
    }
}

/// The largest sample of a kind's nominal domain: for floats, 1.0.
pub open spec fn highest(kind: SampleKind) -> RawSample {
    match kind {
        SampleKind::UnsignedInt => RawSample::UnsignedInt(u16::MAX),
        SampleKind::SignedInt => RawSample::SignedInt(i16::MAX),
        SampleKind::Float => RawSample::Float(FLOAT_ONE),
    }
}

/// The sample of a kind that stands for silence: for floats, 0.0.
pub open spec fn silence(kind: SampleKind) -> RawSample {
    match kind {
        SampleKind::UnsignedInt => RawSample::UnsignedInt(UNSIGNED_MIDPOINT as u16),
        SampleKind::SignedInt => RawSample::SignedInt(0),
        SampleKind::Float => RawSample::Float(0),
    }
}

/// Boundary fidelity. For every kind the largest sample normalises to the
/// largest 16-bit value and silence to 0. The smallest integer sample
/// normalises to the smallest 16-bit value; the smallest float, -1.0, is
/// scaled by `FULL_SCALE` and so normalises to `-FULL_SCALE`, one above it.
pub proof fn lemma_boundary_fidelity(kind: SampleKind)
    ensures
        normalized(highest(kind)) == i16::MAX,
        normalized(silence(kind)) == 0,
        kind != SampleKind::Float ==> normalized(lowest(kind)) == i16::MIN,
        kind == SampleKind::Float ==> normalized(lowest(kind)) == -FULL_SCALE,
{
    lemma2_to64();
    lemma_faint_floats_vanish(0);
    let minus_one: u32 = (SIGN_BIT + FLOAT_ONE) as u32;
    assert(float_exponent(FLOAT_ONE) == 127 && float_fraction(FLOAT_ONE) == 0);
    assert(float_exponent(minus_one) == 127 && float_fraction(minus_one) == 0);
    assert(pow2(23) == FRACTION_RANGE);
    assert(float_amplitude(FLOAT_ONE) == (2 * (0x80_0000 * 32767) + 0x80_0000) / (2 * 0x80_0000));
    assert((2 * (0x80_0000 * 32767) + 0x80_0000) / (2 * 0x80_0000) == 32767int) by (nonlinear_arith);
    assert(float_amplitude(minus_one) == float_amplitude(FLOAT_ONE));
}

/// Floats beyond the nominal domain saturate: every float of magnitude 2
/// or more, infinities included, normalises to the end of the 16-bit range
/// on its side of zero.
pub proof fn lemma_float_saturates(bits: u32)
    requires
        128 <= float_exponent(bits),
        !float_is_nan(bits),
    ensures
        !float_negative(bits) ==> normalized(RawSample::Float(bits)) == i16::MAX,
        float_negative(bits) ==> normalized(RawSample::Float(bits)) == i16::MIN,
{
    if float_exponent(bits) < 255 {
        lemma_loud_floats_saturate(bits);
    }
}

/// Rounding is to the nearest whole number. Where a finite float's power of
/// two is not negative its scaled magnitude is the exact product. Elsewhere
/// it is the whole number nearest to the exact product `exact / unit`: at
/// most half above it and less than half below it.
pub proof fn lemma_amplitude_is_nearest(bits: u32)
    requires
        float_exponent(bits) < 255,
    ensures
        float_power(bits) >= 0 ==> float_amplitude(bits) == float_significand(bits) * FULL_SCALE
            * pow2(float_power(bits) as nat),
        float_power(bits) < 0 ==> {
            let unit = pow2((-float_power(bits)) as nat) as int;
            let exact = float_significand(bits) * FULL_SCALE;
            -unit <= 2 * exact - (2 * unit) * float_amplitude(bits) < unit
        },
{
    if float_power(bits) < 0 {
        let unit = pow2((-float_power(bits)) as nat) as int;
        let exact = float_significand(bits) * FULL_SCALE;
        lemma_pow2_pos((-float_power(bits)) as nat);
        lemma_fundamental_div_mod(2 * exact + unit, 2 * unit);
        lemma_mod_bound(2 * exact + unit, 2 * unit);
    }
}

/// One delivery from the producer: the samples of one buffer in arrival
/// order, all of the stream's kind. A buffer lives for one delivery only.
#[derive(Debug)]
pub enum SampleBuffer {
    UnsignedInt(Vec<u16>),
    SignedInt(Vec<i16>),
    /// Float samples, each given by its IEEE 754 bit pattern.
    Float(Vec<u32>),
}

impl SampleBuffer {
    /// The kind every sample of this buffer has.
    pub open spec fn kind_of(&self) -> SampleKind {
        match self {
            SampleBuffer::UnsignedInt(_) => SampleKind::UnsignedInt,
            SampleBuffer::SignedInt(_) => SampleKind::SignedInt,
            SampleBuffer::Float(_) => SampleKind::Float,
        }
    }

    /// The buffer's samples in arrival order.
    pub open spec fn raw(&self) -> Seq<RawSample> {
        match self {
            SampleBuffer::UnsignedInt(samples) => samples@.map_values(
                |value: u16| RawSample::UnsignedInt(value),
            ),
            SampleBuffer::SignedInt(samples) => samples@.map_values(
                |value: i16| RawSample::SignedInt(value),
            ),
            SampleBuffer::Float(samples) => samples@.map_values(
                |bits: u32| RawSample::Float(bits),
            ),
        }
    }

    /// The buffer's samples, each normalised, in arrival order.
    pub open spec fn normalized(&self) -> Seq<i16> {
        self.raw().map_values(|sample: RawSample| normalized(sample))
    }

    /// The kind every sample of this buffer has.
    pub fn kind(&self) -> (kind: SampleKind)
        ensures
            kind == self.kind_of(),
    {
        match self {
            SampleBuffer::UnsignedInt(_) => SampleKind::UnsignedInt,
            SampleBuffer::SignedInt(_) => SampleKind::SignedInt,
            SampleBuffer::Float(_) => SampleKind::Float,
        }
    }

    /// Number of samples in the buffer.
    pub fn len(&self) -> (count: usize)
        ensures
            count == self.raw().len(),
            count == self.normalized().len(),
    {
        match self {
            SampleBuffer::UnsignedInt(samples) => samples.len(),
            SampleBuffer::SignedInt(samples) => samples.len(),
            SampleBuffer::Float(samples) => samples.len(),
        }
    }

    /// The sample at `index`.
    pub fn get(&self, index: usize) -> (sample: RawSample)
        requires
            index < self.raw().len(),
        ensures
            sample == self.raw()[index as int],
    {
        match self {
            SampleBuffer::UnsignedInt(samples) => RawSample::UnsignedInt(samples[index]),
            SampleBuffer::SignedInt(samples) => RawSample::SignedInt(samples[index]),
            SampleBuffer::Float(samples) => RawSample::Float(samples[index]),
        }
    }
}

} // verus!
