use speech_capture::error::CaptureError;
use speech_capture::format::{ContainerSpec, SampleEncoding, SampleKind, StreamFormat};
use speech_capture::sample::SampleBuffer;
use speech_capture::session::{CaptureSession, Delivery, SessionState};

fn format(channels: u16, kind: SampleKind) -> StreamFormat {
    let bits = if kind == SampleKind::Float { 32 } else { 16 };
    StreamFormat {
        channel_count: channels,
        sample_rate_hz: 44_100,
        bits_per_sample: bits,
        sample_kind: kind,
    }
}

#[test]
fn open_gives_an_idle_session_with_the_flag_down() {
    let session = CaptureSession::open(format(2, SampleKind::SignedInt)).unwrap();
    assert_eq!(session.state(), SessionState::Idle);
    assert!(!session.is_recording());
    assert!(session.has_writer());
    assert_eq!(session.format(), format(2, SampleKind::SignedInt));
}

#[test]
fn begin_starts_an_idle_session() {
    let mut session = CaptureSession::open(format(1, SampleKind::SignedInt)).unwrap();
    session.begin();
    assert_eq!(session.state(), SessionState::Recording);
    assert!(session.is_recording());
}

#[test]
fn start_is_open_and_begin() {
    let session = CaptureSession::start(format(2, SampleKind::UnsignedInt)).unwrap();
    assert_eq!(session.state(), SessionState::Recording);
    assert!(session.is_recording());
    assert!(session.has_writer());
}

#[test]
fn start_fails_when_the_header_cannot_be_written() {
    let too_fast = StreamFormat { sample_rate_hz: 1_073_741_824, ..format(2, SampleKind::SignedInt) };
    assert_eq!(CaptureSession::start(too_fast).err(), Some(CaptureError::SinkCreateFailed));
    assert_eq!(CaptureSession::open(too_fast).err(), Some(CaptureError::SinkCreateFailed));
    let no_channel = StreamFormat { channel_count: 0, ..format(2, SampleKind::SignedInt) };
    assert_eq!(CaptureSession::start(no_channel).err(), Some(CaptureError::SinkCreateFailed));
    let surround = StreamFormat { channel_count: 6, ..format(2, SampleKind::SignedInt) };
    assert_eq!(CaptureSession::start(surround).err(), Some(CaptureError::SinkCreateFailed));
}

#[test]
fn no_deliveries_give_an_empty_container() {
    let mut session = CaptureSession::start(format(2, SampleKind::SignedInt)).unwrap();
    session.stop();
    let container = session.finalize().unwrap();
    assert_eq!(
        container.spec(),
        ContainerSpec {
            channels: 2,
            sample_rate: 44_100,
            bits_per_sample: 16,
            sample_format: SampleEncoding::Int,
        }
    );
    assert_eq!(container.sample_count(), 0);
    assert_eq!(container.byte_length(), 0);
    assert!(container.samples().is_empty());
}

#[test]
fn declared_lengths_follow_the_payload_for_any_number_of_buffers() {
    for buffers in 0..6usize {
        let mut session = CaptureSession::start(format(2, SampleKind::SignedInt)).unwrap();
        for round in 0..buffers {
            let samples: Vec<i16> = (0..(2 * round + 2) as i16).collect();
            session.deliver(&SampleBuffer::SignedInt(samples), true);
        }
        session.stop();
        let container = session.finalize().unwrap();
        // 2 + 4 + ... + 2 * buffers = buffers * (buffers + 1)
        let expected = buffers * (buffers + 1);
        assert_eq!(container.samples().len(), expected);
        assert_eq!(container.sample_count() as usize, expected);
        assert_eq!(container.byte_length() as usize, 2 * expected);
    }
}

#[test]
fn deliveries_are_written_in_arrival_order() {
    let mut session = CaptureSession::start(format(1, SampleKind::SignedInt)).unwrap();
    assert_eq!(session.deliver(&SampleBuffer::SignedInt(vec![1, 2, 3]), true), Delivery::Written(3));
    assert_eq!(session.deliver(&SampleBuffer::SignedInt(vec![]), true), Delivery::Written(0));
    assert_eq!(session.deliver(&SampleBuffer::SignedInt(vec![3, 2, 1]), true), Delivery::Written(3));
    let container = session.finalize().unwrap();
    assert_eq!(container.samples(), &vec![1i16, 2, 3, 3, 2, 1]);
}

#[test]
fn unsigned_deliveries_are_normalised() {
    let mut session = CaptureSession::start(format(1, SampleKind::UnsignedInt)).unwrap();
    let buffer = SampleBuffer::UnsignedInt(vec![0, 32_768, 65_535, 32_769]);
    assert_eq!(session.deliver(&buffer, true), Delivery::Written(4));
    let container = session.finalize().unwrap();
    assert_eq!(container.samples(), &vec![-32_768i16, 0, 32_767, 1]);
}

#[test]
fn float_deliveries_are_scaled_rounded_and_clamped() {
    let mut session = CaptureSession::start(format(1, SampleKind::Float)).unwrap();
    let samples: Vec<u32> =
        [1.0f32, -1.0, 0.0, 1.000_1, -1.5, 0.5].iter().map(|sample| sample.to_bits()).collect();
    assert_eq!(session.deliver(&SampleBuffer::Float(samples), true), Delivery::Written(6));
    let container = session.finalize().unwrap();
    assert_eq!(container.samples(), &vec![32_767i16, -32_767, 0, 32_767, -32_768, 16_384]);
    assert_eq!(container.spec().bits_per_sample, 16);
    assert_eq!(container.spec().sample_format, SampleEncoding::Int);
}

#[test]
fn a_delivery_before_the_start_is_ignored() {
    let mut session = CaptureSession::open(format(1, SampleKind::SignedInt)).unwrap();
    assert_eq!(session.deliver(&SampleBuffer::SignedInt(vec![5, 6]), true), Delivery::Ignored);
    session.begin();
    assert_eq!(session.deliver(&SampleBuffer::SignedInt(vec![7]), true), Delivery::Written(1));
    let container = session.finalize().unwrap();
    assert_eq!(container.samples(), &vec![7i16]);
}

#[test]
fn a_delivery_after_stop_is_not_in_the_container() {
    let mut session = CaptureSession::start(format(2, SampleKind::SignedInt)).unwrap();
    assert_eq!(session.deliver(&SampleBuffer::SignedInt(vec![1, 2]), true), Delivery::Written(2));
    session.stop();
    assert_eq!(session.state(), SessionState::Stopped);
    assert!(!session.is_recording());
    assert_eq!(session.deliver(&SampleBuffer::SignedInt(vec![9, 9, 9, 9]), true), Delivery::Ignored);
    let container = session.finalize().unwrap();
    assert_eq!(container.samples(), &vec![1i16, 2]);
    assert_eq!(container.sample_count(), 2);
}

#[test]
fn a_delivery_under_contention_is_dropped() {
    let mut session = CaptureSession::start(format(1, SampleKind::SignedInt)).unwrap();
    assert_eq!(session.deliver(&SampleBuffer::SignedInt(vec![1]), true), Delivery::Written(1));
    assert_eq!(session.deliver(&SampleBuffer::SignedInt(vec![2, 2]), false), Delivery::Dropped);
    assert_eq!(session.deliver(&SampleBuffer::SignedInt(vec![3]), true), Delivery::Written(1));
    let container = session.finalize().unwrap();
    assert_eq!(container.samples(), &vec![1i16, 3]);
}

#[test]
fn the_flag_is_looked_at_before_the_acquisition() {
    let mut session = CaptureSession::start(format(1, SampleKind::SignedInt)).unwrap();
    session.stop();
    assert_eq!(session.deliver(&SampleBuffer::SignedInt(vec![1]), false), Delivery::Ignored);
}

#[test]
fn a_second_finalize_fails_with_already_finalized() {
    let mut session = CaptureSession::start(format(2, SampleKind::SignedInt)).unwrap();
    session.deliver(&SampleBuffer::SignedInt(vec![4, 5]), true);
    session.stop();
    let first = session.finalize();
    assert_eq!(first.unwrap().samples(), &vec![4i16, 5]);
    assert!(!session.has_writer());
    assert_eq!(session.finalize().err(), Some(CaptureError::AlreadyFinalized));
    assert_eq!(session.finalize().err(), Some(CaptureError::AlreadyFinalized));
    assert_eq!(session.state(), SessionState::Stopped);
    assert!(!session.has_writer());
}

#[test]
fn finalize_without_stop_stops_the_session() {
    let mut session = CaptureSession::start(format(1, SampleKind::SignedInt)).unwrap();
    session.deliver(&SampleBuffer::SignedInt(vec![8]), true);
    let container = session.finalize().unwrap();
    assert_eq!(container.samples(), &vec![8i16]);
    assert_eq!(session.state(), SessionState::Stopped);
    // the flag was never lowered, but the writer is gone
    assert_eq!(session.deliver(&SampleBuffer::SignedInt(vec![9]), true), Delivery::Closed);
    assert_eq!(session.finalize().err(), Some(CaptureError::AlreadyFinalized));
}

#[test]
fn a_stopped_session_does_not_start_again() {
    let mut session = CaptureSession::start(format(1, SampleKind::SignedInt)).unwrap();
    session.stop();
    session.begin();
    assert_eq!(session.state(), SessionState::Stopped);
    assert!(!session.is_recording());
    assert_eq!(session.deliver(&SampleBuffer::SignedInt(vec![1]), true), Delivery::Ignored);
}

#[test]
fn begin_twice_changes_nothing() {
    let mut session = CaptureSession::start(format(1, SampleKind::SignedInt)).unwrap();
    session.deliver(&SampleBuffer::SignedInt(vec![1]), true);
    session.begin();
    assert_eq!(session.state(), SessionState::Recording);
    let container = session.finalize().unwrap();
    assert_eq!(container.samples(), &vec![1i16]);
}

#[test]
fn an_idle_session_can_be_stopped_and_finalized() {
    let mut session = CaptureSession::open(format(2, SampleKind::Float)).unwrap();
    session.stop();
    assert_eq!(session.state(), SessionState::Stopped);
    let container = session.finalize().unwrap();
    assert_eq!(container.sample_count(), 0);
}
