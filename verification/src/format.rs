//! Stream formats as a capture device reports them, and the container
//! header that a recording of such a stream declares.

use vstd::prelude::*;
use crate::error::CaptureError;

verus! {

/// How a capture device represents one sample. The set is closed: every
/// function that looks at a kind handles all three.
#[derive(Clone, Copy, Debug, PartialEq, Eq, Structural)]
pub enum SampleKind {
    /// Unsigned 16-bit integers, silence at 32768.
    UnsignedInt,
    /// Signed 16-bit integers, silence at 0.
    SignedInt,
    /// 32-bit floats, nominally in [-1.0, 1.0].
    Float,
}

impl SampleKind {
    /// Width in bits of one device sample of this kind.
    pub open spec fn bits(self) -> int {
        match self {
            SampleKind::UnsignedInt => 16,
            SampleKind::SignedInt => 16,
            SampleKind::Float => 32,
        }
    }

    /// Width in bits of one device sample of this kind.
    pub fn bits_per_sample(self) -> (bits: u16)
        ensures
            bits == self.bits(),
    {
        match self {
            SampleKind::UnsignedInt => 16,
            SampleKind::SignedInt => 16,
            SampleKind::Float => 32,
        }
    }
}

/// The native format of a capture stream. A session copies it when it is
/// opened and never changes it afterwards.
#[derive(Clone, Copy, Debug, PartialEq, Eq, Structural)]
pub struct StreamFormat {
    pub channel_count: u16,
    pub sample_rate_hz: u32,
    pub bits_per_sample: u16,
    pub sample_kind: SampleKind,
}

impl StreamFormat {
    /// A format the pipeline can record: one or two channels, a positive
    /// sample rate and a positive sample width.
    pub open spec fn usable(self) -> bool {
        &&& (self.channel_count == 1 || self.channel_count == 2)
        &&& self.sample_rate_hz > 0
        &&& self.bits_per_sample > 0
    }

    /// Tests whether the pipeline can record this format.
    pub fn is_usable(&self) -> (ok: bool)
        ensures
            ok == self.usable(),
    {
        (self.channel_count == 1 || self.channel_count == 2) && self.sample_rate_hz > 0
            && self.bits_per_sample > 0
    }
}

/// What the host audio subsystem answered when asked for its default
/// capture device and that device's default input format.
#[derive(Clone, Copy, Debug, PartialEq, Eq, Structural)]
pub enum DeviceReport {
    /// The host has no capture device.
    NoDevice,
    /// There is a device, but it offers no input format.
    NoFormat,
    /// The device's default input format.
    Format { channels: u16, sample_rate: u32, sample_kind: SampleKind },
}

/// The outcome of negotiation for each possible report.
pub open spec fn negotiated(report: DeviceReport) -> Result<StreamFormat, CaptureError> {
    match report {
        DeviceReport::NoDevice => Err(CaptureError::DeviceUnavailable),
        DeviceReport::NoFormat => Err(CaptureError::FormatUnsupported),
        DeviceReport::Format { channels, sample_rate, sample_kind } => {
            let format = StreamFormat {
                channel_count: channels,
                sample_rate_hz: sample_rate,
                bits_per_sample: sample_kind.bits() as u16,
                sample_kind,
            };
            if format.usable() {
                Ok(format)
            } else {
                Err(CaptureError::FormatUnsupported)
            }
        },
    }
}

/// Turns the host's report into the format to record with. A missing device
/// is `DeviceUnavailable`; a missing format, more than two channels, no
/// channel at all or a zero sample rate is `FormatUnsupported`.
pub fn negotiate(report: DeviceReport) -> (result: Result<StreamFormat, CaptureError>)
    ensures
        result == negotiated(report),
        result matches Ok(format) ==> format.usable(),
{
    match report {
        DeviceReport::NoDevice => Err(CaptureError::DeviceUnavailable),
        DeviceReport::NoFormat => Err(CaptureError::FormatUnsupported),
        DeviceReport::Format { channels, sample_rate, sample_kind } => {
            let format = StreamFormat {
                channel_count: channels,
                sample_rate_hz: sample_rate,
                bits_per_sample: sample_kind.bits_per_sample(),
                sample_kind,
            };
            if format.is_usable() {
                Ok(format)
            } else {
                Err(CaptureError::FormatUnsupported)
            }
        },
    }
}

/// How a container stores each sample.
#[derive(Clone, Copy, Debug, PartialEq, Eq, Structural)]
pub enum SampleEncoding {
    /// Little-endian signed integers.
    Int,
    /// IEEE floats.
    Float,
}

/// Width in bits of every sample the pipeline stores.
pub const CONTAINER_BITS: u16 = 16;

/// Bytes taken by one stored sample.
pub const BYTES_PER_SAMPLE: u32 = 2;

/// What a container's header declares about its payload.
#[derive(Clone, Copy, Debug, PartialEq, Eq, Structural)]
pub struct ContainerSpec {
    pub channels: u16,
    pub sample_rate: u32,
    pub bits_per_sample: u16,
    pub sample_format: SampleEncoding,
}

impl ContainerSpec {
    /// A header the pipeline's writer can produce: one or two channels of
    /// 16-bit integer samples at a positive rate, with a byte rate
    /// (`sample_rate * channels * 2`) that fits the header's 32-bit field.
    pub open spec fn writable(self) -> bool {
        &&& (self.channels == 1 || self.channels == 2)
        &&& self.sample_rate > 0
        &&& self.bits_per_sample == CONTAINER_BITS
        &&& self.sample_format == SampleEncoding::Int
        &&& self.sample_rate * self.channels * BYTES_PER_SAMPLE <= u32::MAX
    }

    /// Tests whether the pipeline's writer can produce this header.
    pub fn is_writable(&self) -> (ok: bool)
        ensures
            ok == self.writable(),
    {
        if self.channels == 1 {
            self.sample_rate > 0 && self.sample_rate <= u32::MAX / 2
                && self.bits_per_sample == CONTAINER_BITS
                && self.sample_format == SampleEncoding::Int
        } else if self.channels == 2 {
            self.sample_rate > 0 && self.sample_rate <= u32::MAX / 4
                && self.bits_per_sample == CONTAINER_BITS
                && self.sample_format == SampleEncoding::Int
        } else {
            false
        }
    }

    /// The same header with a single channel.
    pub open spec fn mono(self) -> ContainerSpec {
        ContainerSpec { channels: 1, ..self }
    }
}

/// How the container stores samples that the device delivers as `kind`:
/// as integers whatever the kind, because every device sample is normalised
/// to a signed 16-bit value before it is stored.
pub fn sample_format(kind: SampleKind) -> (encoding: SampleEncoding)
    ensures
        encoding == SampleEncoding::Int,
{
    match kind {
        SampleKind::UnsignedInt => SampleEncoding::Int,
        SampleKind::SignedInt => SampleEncoding::Int,
        SampleKind::Float => SampleEncoding::Int,
    }
}

/// The header of the container that records `format`: the stream's channel
/// count and sample rate, and always 16-bit integer samples.
pub open spec fn wav_spec(format: StreamFormat) -> ContainerSpec {
    ContainerSpec {
        channels: format.channel_count,
        sample_rate: format.sample_rate_hz,
        bits_per_sample: CONTAINER_BITS,
        sample_format: SampleEncoding::Int,
    }
}

/// Derives the container header for a recording of `format`.
pub fn wav_spec_from_format(format: &StreamFormat) -> (spec: ContainerSpec)
    ensures
        spec == wav_spec(*format),
{
    ContainerSpec {
        channels: format.channel_count,
        sample_rate: format.sample_rate_hz,
        bits_per_sample: CONTAINER_BITS,
        sample_format: sample_format(format.sample_kind),
    }
}

} // verus!
