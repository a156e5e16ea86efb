//! The audio container: a header that declares a format and a payload
//! length, followed by interleaved signed 16-bit samples. A writer collects
//! the samples; finishing it fixes the header's lengths.

use vstd::prelude::*;
use crate::error::CaptureError;
use crate::format::ContainerSpec;

verus! {

/// Bytes that the container's outer chunk holds besides the payload. The
/// chunk's 32-bit size field has to hold the payload length plus this.
pub const HEADER_OVERHEAD: u32 = 36;

/// The largest number of samples whose byte length, with the header
/// overhead, still fits the header's 32-bit size fields.
pub const MAX_SAMPLES: u32 = 2_147_483_629;

/// The lengths that a finished header declares.
#[derive(Clone, Copy, Debug, PartialEq, Eq, Structural)]
pub struct PayloadLengths {
    /// Number of samples, over all channels.
    pub sample_count: u32,
    /// Number of payload bytes.
    pub byte_length: u32,
}

/// Whether a header can declare a payload of `sample_count` samples.
pub open spec fn declarable(sample_count: int) -> bool {
    sample_count * 2 + HEADER_OVERHEAD <= u32::MAX
}

/// Computes the lengths a header declares for a payload of `sample_count`
/// samples: the count itself and twice the count in bytes. Fails with
/// `FlushFailed` exactly when the header's 32-bit fields cannot hold them.
pub fn declared_lengths(sample_count: usize) -> (result: Result<PayloadLengths, CaptureError>)
    ensures
        declarable(sample_count as int) ==> result == Ok::<PayloadLengths, CaptureError>(
            PayloadLengths {
                sample_count: sample_count as u32,
                byte_length: (sample_count * 2) as u32,
            },
        ),
        !declarable(sample_count as int) ==> result == Err::<PayloadLengths, CaptureError>(
            CaptureError::FlushFailed,
        ),
{
    if sample_count <= MAX_SAMPLES as usize {
        let count: u32 = sample_count as u32;
        Ok(PayloadLengths { sample_count: count, byte_length: count * 2 })
    } else {
        Err(CaptureError::FlushFailed)
    }
}

/// What a writer holds: the header it was opened with and the samples
/// appended so far, oldest first.
pub struct WriterModel {
    pub spec: ContainerSpec,
    pub samples: Seq<i16>,
}

/// What a finished container holds: the declared format, the declared
/// lengths and the payload.
pub struct ContainerModel {
    pub spec: ContainerSpec,
    pub sample_count: nat,
    pub byte_length: nat,
    pub samples: Seq<i16>,
}

impl ContainerModel {
    /// The header's lengths are those of the payload.
    pub open spec fn consistent(self) -> bool {
        &&& self.sample_count == self.samples.len()
        &&& self.byte_length == 2 * self.samples.len()
    }

    /// The payload holds whole frames only.
    pub open spec fn frame_aligned(self) -> bool {
        self.samples.len() % (self.spec.channels as nat) == 0
    }
}

/// The finished container with header `spec` and payload `samples`: its
/// declared lengths are those of the payload.
pub open spec fn sealed(spec: ContainerSpec, samples: Seq<i16>) -> ContainerModel {
    ContainerModel {
        spec,
        sample_count: samples.len(),
        byte_length: 2 * samples.len(),
        samples,
    }
}

/// A header that the writer can produce: the only way to make one is to
/// pass `ContainerSpec::is_writable`.
#[derive(Clone, Copy, Debug)]
struct CheckedSpec {
    spec: ContainerSpec,
}

impl CheckedSpec {
    #[verifier::type_invariant]
    spec fn header_is_writable(self) -> bool {
        self.spec.writable()
    }

    fn get(&self) -> (spec: ContainerSpec)
        ensures
            spec == self.spec,
            spec.writable(),
    {
        proof {
            use_type_invariant(self);
        }
        self.spec
    }
}

/// An open container sink. Samples are buffered in arrival order until the
/// writer is finished.
#[derive(Debug)]
pub struct ContainerWriter {
    header: CheckedSpec,
    samples: Vec<i16>,
}

impl View for ContainerWriter {
    type V = WriterModel;

    closed spec fn view(&self) -> WriterModel {
        WriterModel { spec: self.header.spec, samples: self.samples@ }
    }
}

impl ContainerWriter {
    /// Opens a writer for a container with header `spec` and no samples yet.
    /// Fails with `SinkCreateFailed` exactly when the header is not one the
    /// writer can produce.
    pub fn create(spec: ContainerSpec) -> (result: Result<ContainerWriter, CaptureError>)
        ensures
            spec.writable() ==> (result matches Ok(writer) && writer@ == (WriterModel {
                spec,
                samples: Seq::empty(),
            })),
            !spec.writable() ==> (result matches Err(error) && error
                == CaptureError::SinkCreateFailed),
    {
        if spec.is_writable() {
            Ok(ContainerWriter { header: CheckedSpec { spec }, samples: Vec::new() })
        } else {
            Err(CaptureError::SinkCreateFailed)
        }
    }

    /// Appends one sample behind those already written.
    pub fn write_sample(&mut self, value: i16)
        ensures
            final(self)@ == (WriterModel {
                spec: old(self)@.spec,
                samples: old(self)@.samples.push(value),
            }),
    {
        self.samples.push(value);
    }

    /// The header this writer was opened with.
    pub fn spec(&self) -> (spec: ContainerSpec)
        ensures
            spec == self@.spec,
            spec.writable(),
    {
        self.header.get()
    }

    /// Number of samples written so far.
    pub fn len(&self) -> (count: usize)
        ensures
            count == self@.samples.len(),
    {
        self.samples.len()
    }

    /// Closes the writer and fixes the header's lengths to what was written.
    /// Fails with `FlushFailed` exactly when the header cannot declare that
    /// many samples.
    pub fn finalize(self) -> (result: Result<AudioContainer, CaptureError>)
        ensures
            declarable(self@.samples.len() as int) ==> (result matches Ok(container)
                && container@ == sealed(self@.spec, self@.samples)),
            !declarable(self@.samples.len() as int) ==> (result matches Err(error) && error
                == CaptureError::FlushFailed),
    {
        let spec: ContainerSpec = self.header.get();
        match declared_lengths(self.samples.len()) {
            Ok(lengths) => Ok(
                AudioContainer {
                    spec,
                    sample_count: lengths.sample_count,
                    byte_length: lengths.byte_length,
                    samples: self.samples,
                },
            ),
            Err(error) => Err(error),
        }
    }
}

/// A finished container: header and payload. Its header always declares the
/// lengths of the payload it comes with.
#[derive(Debug)]
pub struct AudioContainer {
    spec: ContainerSpec,
    sample_count: u32,
    byte_length: u32,
    samples: Vec<i16>,
}

impl View for AudioContainer {
    type V = ContainerModel;

    closed spec fn view(&self) -> ContainerModel {
        ContainerModel {
            spec: self.spec,
            sample_count: self.sample_count as nat,
            byte_length: self.byte_length as nat,
            samples: self.samples@,
        }
    }
}

impl Clone for AudioContainer {
    fn clone(&self) -> (copy: AudioContainer)
        ensures
            copy@ == self@,
    {
        proof {
            use_type_invariant(self);
        }
        AudioContainer {
            spec: self.spec,
            sample_count: self.sample_count,
            byte_length: self.byte_length,
            samples: self.samples.clone(),
        }
    }
}

impl AudioContainer {
    #[verifier::type_invariant]
    spec fn header_matches_payload(self) -> bool {
        &&& self.spec.writable()
        &&& self.sample_count == self.samples@.len()
        &&& self.byte_length == 2 * self.samples@.len()
        &&& declarable(self.samples@.len() as int)
    }

    /// The declared format.
    pub fn spec(&self) -> (spec: ContainerSpec)
        ensures
            spec == self@.spec,
            spec.writable(),
    {
        proof {
            use_type_invariant(self);
        }
        self.spec
    }

    /// The declared number of samples, which is the number of samples in the
    /// payload.
    pub fn sample_count(&self) -> (count: u32)
        ensures
            count == self@.sample_count,
            count == self@.samples.len(),
    {
        proof {
            use_type_invariant(self);
        }
        self.sample_count
    }

    /// The declared number of payload bytes, which is two for each sample in
    /// the payload.
    pub fn byte_length(&self) -> (bytes: u32)
        ensures
            bytes == self@.byte_length,
            bytes == 2 * self@.samples.len(),
    {
        proof {
            use_type_invariant(self);
        }
        self.byte_length
    }

    /// The payload, interleaved by channel. It is never longer than a
    /// header can declare.
    pub fn samples(&self) -> (samples: &Vec<i16>)
        ensures
            samples@ == self@.samples,
            declarable(samples@.len() as int),
    {
        proof {
            use_type_invariant(self);
        }
        &self.samples
    }

    /// Whether the payload holds whole frames only.
    pub fn is_frame_aligned(&self) -> (aligned: bool)
        ensures
            aligned == self@.frame_aligned(),
    {
        proof {
            use_type_invariant(self);
        }
        self.samples.len() % (self.spec.channels as usize) == 0
    }
}

} // verus!
