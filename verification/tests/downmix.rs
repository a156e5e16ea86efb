use speech_capture::container::{AudioContainer, ContainerWriter};
use speech_capture::downmix::downmix;
use speech_capture::error::CaptureError;
use speech_capture::format::{ContainerSpec, SampleEncoding};

fn container(channels: u16, sample_rate: u32, samples: &[i16]) -> AudioContainer {
    let spec = ContainerSpec {
        channels,
        sample_rate,
        bits_per_sample: 16,
        sample_format: SampleEncoding::Int,
    };
    let mut writer = ContainerWriter::create(spec).unwrap();
    for value in samples {
        writer.write_sample(*value);
    }
    writer.finalize().unwrap()
}

#[test]
fn stereo_becomes_mono_of_half_the_length() {
    let stereo = container(2, 44_100, &[10, 20, -30, -50, 0, 0, 7, 9]);
    let mono = downmix(&stereo).unwrap();
    assert_eq!(mono.spec().channels, 1);
    assert_eq!(mono.spec().sample_rate, 44_100);
    assert_eq!(mono.spec().bits_per_sample, 16);
    assert_eq!(mono.spec().sample_format, SampleEncoding::Int);
    assert_eq!(mono.samples(), &vec![15i16, -40, 0, 8]);
    assert_eq!(mono.sample_count(), 4);
    assert_eq!(mono.byte_length(), 8);
}

#[test]
fn half_units_are_cut_towards_zero() {
    let stereo = container(2, 8_000, &[3, 0, -3, 0, 1, 0, -1, 0, 1, 2, -1, -2]);
    let mono = downmix(&stereo).unwrap();
    assert_eq!(mono.samples(), &vec![1i16, -1, 0, 0, 1, -1]);
}

#[test]
fn means_at_the_ends_of_the_range_do_not_wrap() {
    let stereo = container(
        2,
        8_000,
        &[
            i16::MAX,
            i16::MAX,
            i16::MIN,
            i16::MIN,
            i16::MAX,
            i16::MIN,
            i16::MIN,
            i16::MAX,
            i16::MAX,
            i16::MAX - 1,
            i16::MIN,
            i16::MIN + 1,
        ],
    );
    let mono = downmix(&stereo).unwrap();
    assert_eq!(mono.samples(), &vec![32_767i16, -32_768, 0, 0, 32_766, -32_767]);
}

#[test]
fn every_mean_is_within_one_of_the_rounded_mean() {
    let values: [i16; 9] = [i16::MIN, -32_767, -2, -1, 0, 1, 2, 32_766, i16::MAX];
    let mut samples: Vec<i16> = Vec::new();
    for left in values {
        for right in values {
            samples.push(left);
            samples.push(right);
        }
    }
    let mono = downmix(&container(2, 16_000, &samples)).unwrap();
    assert_eq!(mono.samples().len() * 2, samples.len());
    for (frame, value) in mono.samples().iter().enumerate() {
        let left = samples[2 * frame] as f64;
        let right = samples[2 * frame + 1] as f64;
        let rounded = ((left + right) / 2.0).round();
        assert!((*value as f64 - rounded).abs() <= 1.0);
        assert_eq!(*value, ((left + right) / 2.0) as i16);
    }
}

#[test]
fn an_odd_payload_is_refused_and_left_alone() {
    let torn = container(2, 44_100, &[1, 2, 3]);
    assert_eq!(downmix(&torn).err(), Some(CaptureError::OddSampleCount));
    assert_eq!(torn.spec().channels, 2);
    assert_eq!(torn.samples(), &vec![1i16, 2, 3]);
    assert_eq!(torn.sample_count(), 3);
    assert_eq!(torn.byte_length(), 6);
}

#[test]
fn a_single_stereo_sample_is_refused() {
    assert_eq!(downmix(&container(2, 44_100, &[5])).err(), Some(CaptureError::OddSampleCount));
}

#[test]
fn an_empty_stereo_container_becomes_an_empty_mono_container() {
    let mono = downmix(&container(2, 44_100, &[])).unwrap();
    assert_eq!(mono.spec().channels, 1);
    assert_eq!(mono.sample_count(), 0);
    assert_eq!(mono.byte_length(), 0);
}

#[test]
fn mono_passes_through() {
    let already = container(1, 22_050, &[4, -4, 9]);
    let same = downmix(&already).unwrap();
    assert_eq!(same.spec(), already.spec());
    assert_eq!(same.samples(), &vec![4i16, -4, 9]);
    assert_eq!(same.sample_count(), 3);
    assert_eq!(same.byte_length(), 6);
}

#[test]
fn downmix_twice_is_downmix_once() {
    let stereo = container(2, 44_100, &[100, 200, 300, 500]);
    let once = downmix(&stereo).unwrap();
    let twice = downmix(&once).unwrap();
    assert_eq!(twice.spec(), once.spec());
    assert_eq!(twice.samples(), &vec![150i16, 400]);
}
