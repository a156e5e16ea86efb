//! Stereo to mono: every frame of a two-channel container becomes one
//! sample, the mean of its left and right sample.

use vstd::prelude::*;
use crate::container::{sealed, AudioContainer, ContainerModel, ContainerWriter};
use crate::error::CaptureError;
use crate::format::ContainerSpec;

verus! {

/// The mean of a frame's two samples, computed exactly and then cut towards
/// zero to a whole number.
pub open spec fn mean(left: i16, right: i16) -> i16 {
    let sum = left + right;
    if sum >= 0 {
        (sum / 2) as i16
    } else {
        (-((-sum) / 2)) as i16
    }
}

/// The means of the frames of an interleaved two-channel payload.
pub open spec fn mixed(samples: Seq<i16>) -> Seq<i16> {
    Seq::new(samples.len() / 2, |frame: int| mean(samples[2 * frame], samples[2 * frame + 1]))
}

/// What downmix makes of a container: a mono container as it is; a stereo
/// container with whole frames as a mono container of the frames' means at
/// the same rate and width; a stereo container with a torn last frame not
/// at all.
pub open spec fn downmixed(container: ContainerModel) -> Result<ContainerModel, CaptureError> {
    if container.spec.channels == 1 {
        Ok(container)
    } else if container.samples.len() % 2 != 0 {
        Err(CaptureError::OddSampleCount)
    } else {
        Ok(sealed(container.spec.mono(), mixed(container.samples)))
    }
}

/// The mean is never more than half a unit away from the exact mean, and so
/// never more than one unit away from any whole number that the exact mean
/// rounds to. Where the two samples add up to an even number it is exact.
pub proof fn lemma_mean_within_one(left: i16, right: i16, rounded: int)
    requires
        -1 <= 2 * rounded - (left + right) <= 1,
    ensures
        -1 <= 2 * mean(left, right) - (left + right) <= 1,
        -1 <= mean(left, right) - rounded <= 1,
        (left + right) % 2 == 0 ==> 2 * mean(left, right) == left + right,
{
}

/// A stereo payload of whole frames mixes down to half as many samples,
/// each the mean of its frame.
pub proof fn lemma_mixed_halves(samples: Seq<i16>)
    requires
        samples.len() % 2 == 0,
    ensures
        2 * mixed(samples).len() == samples.len(),
        forall|frame: int|
            0 <= frame < mixed(samples).len() ==> #[trigger] mixed(samples)[frame] == mean(
                samples[2 * frame],
                samples[2 * frame + 1],
            ),
{
}

/// Computes the mean of one frame.
fn average(left: i16, right: i16) -> (value: i16)
    ensures
        value == mean(left, right),
{
    let sum: i32 = left as i32 + right as i32;
    if sum >= 0 {
        (sum / 2) as i16
    } else {
        (-((-sum) / 2)) as i16
    }
}

/// Reduces a two-channel container to one channel. The result has the same
/// sample rate and width, one sample per input frame, each the mean of the
/// frame's two samples, and a header that declares the new lengths. A mono
/// container is returned as it is. A stereo payload with an odd number of
/// samples is refused with `OddSampleCount`; nothing is produced then.
pub fn downmix(container: &AudioContainer) -> (result: Result<AudioContainer, CaptureError>)
    ensures
        match result {
            Ok(mono) => downmixed(container@) == Ok::<ContainerModel, CaptureError>(mono@),
            Err(error) => downmixed(container@) == Err::<ContainerModel, CaptureError>(error),
        },
        container@.spec.channels == 2 ==> (result is Err <==> container@.samples.len() % 2 != 0),
        container@.spec.channels == 2 ==> (result matches Ok(mono) ==> mono@.spec.channels == 1
            && 2 * mono@.samples.len() == container@.samples.len()),
{
    let spec: ContainerSpec = container.spec();
    if spec.channels == 1 {
        return Ok(container.clone());
    }
    let samples: &Vec<i16> = container.samples();
    let total: usize = samples.len();
    if total % 2 != 0 {
        return Err(CaptureError::OddSampleCount);
    }
    let mono_spec: ContainerSpec = ContainerSpec { channels: 1, ..spec };
    assert(mono_spec.writable()) by {
        assert(spec.channels == 2);
        assert(spec.sample_rate * 1 * 2 <= spec.sample_rate * 2 * 2);
    }
    match ContainerWriter::create(mono_spec) {
        Err(error) => Err(error),
        Ok(mut writer) => {
            let frames: usize = total / 2;
            let mut frame: usize = 0;
            while frame < frames
                invariant
                    frame <= frames,
                    frames * 2 == total,
                    total == samples@.len(),
                    writer@.spec == mono_spec,
                    writer@.samples == mixed(samples@).subrange(0, frame as int),
                decreases frames - frame,
            {
                let value: i16 = average(samples[2 * frame], samples[2 * frame + 1]);
                writer.write_sample(value);
                frame = frame + 1;
            }
            assert(mixed(samples@).subrange(0, frames as int) == mixed(samples@));
            writer.finalize()
        },
    }
}

} // verus!
