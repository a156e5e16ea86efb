//! The capture session: one recording from start to finalize.
//!
//! A session owns the container writer and a recording flag. The producer
//! hands it buffers, the controller stops and finalizes it. The session
//! itself is sequential: whoever shares it between threads puts it behind a
//! lock, tries that lock without blocking on the producer's side, and tells
//! `deliver` whether the attempt succeeded.

use vstd::prelude::*;
use crate::container::{sealed, declarable, AudioContainer, ContainerModel, ContainerWriter, WriterModel};
use crate::error::CaptureError;
use crate::format::{wav_spec, wav_spec_from_format, StreamFormat};
use crate::sample::{normalize, SampleBuffer};

verus! {

/// Where a session is in its life. There is no way back: a new recording
/// needs a new session.
#[derive(Clone, Copy, Debug, PartialEq, Eq, Structural)]
pub enum SessionState {
    /// Opened, not yet recording.
    Idle,
    /// Recording: deliveries are written.
    Recording,
    /// Stopped for good.
    Stopped,
}

impl SessionState {
    /// How far along its life a session in this state is.
    pub open spec fn rank(self) -> nat {
        match self {
            SessionState::Idle => 0,
            SessionState::Recording => 1,
            SessionState::Stopped => 2,
        }
    }
}

/// What became of one delivered buffer. Only `Written` changes the session;
/// the other three are silent drops, not failures.
#[derive(Clone, Copy, Debug, PartialEq, Eq, Structural)]
pub enum Delivery {
    /// The recording flag was down: the buffer is stale.
    Ignored,
    /// The writer was held by someone else: the producer does not wait.
    Dropped,
    /// The writer had already been reclaimed by finalize.
    Closed,
    /// Every sample of the buffer was normalised and appended; the count
    /// is the buffer's length.
    Written(usize),
}

/// What a session holds, as mathematics.
pub struct SessionModel {
    pub state: SessionState,
    pub format: StreamFormat,
    /// The recording flag.
    pub recording: bool,
    /// The writer, until finalize reclaims it.
    pub writer: Option<WriterModel>,
}

impl SessionModel {
    /// A freshly opened session: idle, flag down, an empty writer whose
    /// header is derived from `format`.
    pub open spec fn opened(format: StreamFormat) -> SessionModel {
        SessionModel {
            state: SessionState::Idle,
            format,
            recording: false,
            writer: Some(WriterModel { spec: wav_spec(format), samples: Seq::empty() }),
        }
    }

    /// The session after the start signal. Only an idle session starts.
    pub open spec fn begun(self) -> SessionModel {
        if self.state == SessionState::Idle {
            SessionModel { state: SessionState::Recording, recording: true, ..self }
        } else {
            self
        }
    }

    /// What happens to a delivered buffer of `count` samples. The flag is
    /// looked at first, then the outcome of the acquisition, then the writer.
    pub open spec fn delivery(self, count: nat, acquired: bool) -> Delivery {
        if !self.recording {
            Delivery::Ignored
        } else if !acquired {
            Delivery::Dropped
        } else if self.writer is None {
            Delivery::Closed
        } else {
            Delivery::Written(count as usize)
        }
    }

    /// The session after a delivery of the normalised samples `samples`:
    /// they are appended behind what was written, or nothing changes.
    pub open spec fn delivered(self, samples: Seq<i16>, acquired: bool) -> SessionModel {
        match self.writer {
            Some(writer) if self.recording && acquired => SessionModel {
                writer: Some(WriterModel { spec: writer.spec, samples: writer.samples + samples }),
                ..self
            },
            _ => self,
        }
    }

    /// The session after the stop signal.
    pub open spec fn stopped(self) -> SessionModel {
        SessionModel { state: SessionState::Stopped, recording: false, ..self }
    }

    /// What finalize returns: the writer's samples under a header that
    /// declares their lengths; `FlushFailed` if no header can declare them;
    /// `AlreadyFinalized` if the writer is gone.
    pub open spec fn finalize_outcome(self) -> Result<ContainerModel, CaptureError> {
        match self.writer {
            None => Err(CaptureError::AlreadyFinalized),
            Some(writer) => if declarable(writer.samples.len() as int) {
                Ok(sealed(writer.spec, writer.samples))
            } else {
                Err(CaptureError::FlushFailed)
            },
        }
    }

    /// The session after finalize: stopped and without its writer. A session
    /// that has lost its writer already is left as it is.
    pub open spec fn finalized(self) -> SessionModel {
        match self.writer {
            None => self,
            Some(_) => SessionModel { state: SessionState::Stopped, writer: None, ..self },
        }
    }
}

/// One delivery as the session sees it: the buffer's normalised samples and
/// whether the producer got hold of the writer.
pub struct DeliveryEvent {
    pub samples: Seq<i16>,
    pub acquired: bool,
}

impl SessionModel {
    /// The session after the deliveries `events`, first to last.
    pub open spec fn replayed(self, events: Seq<DeliveryEvent>) -> SessionModel
        decreases events.len(),
    {
        if events.len() == 0 {
            self
        } else {
            self.replayed(events.drop_last()).delivered(
                events.last().samples,
                events.last().acquired,
            )
        }
    }
}

/// The samples of those deliveries that got hold of the writer, joined in
/// arrival order.
pub open spec fn accepted(events: Seq<DeliveryEvent>) -> Seq<i16>
    decreases events.len(),
{
    if events.len() == 0 {
        Seq::empty()
    } else if events.last().acquired {
        accepted(events.drop_last()) + events.last().samples
    } else {
        accepted(events.drop_last())
    }
}

/// A session that is started and finalized without a delivery in between,
/// stopped first or not, yields a container with the header derived from its
/// format, an empty payload and declared lengths of zero.
pub proof fn lemma_silent_session_is_empty(format: StreamFormat)
    ensures
        SessionModel::opened(format).begun().finalize_outcome() == Ok::<
            ContainerModel,
            CaptureError,
        >(sealed(wav_spec(format), Seq::empty())),
        SessionModel::opened(format).begun().stopped().finalize_outcome() == Ok::<
            ContainerModel,
            CaptureError,
        >(sealed(wav_spec(format), Seq::empty())),
        sealed(wav_spec(format), Seq::empty()).sample_count == 0,
        sealed(wav_spec(format), Seq::empty()).byte_length == 0,
{
}

/// Whatever was delivered, a container that finalize returns declares
/// exactly the lengths of its payload, and its payload and header are those
/// of the session's writer.
pub proof fn lemma_header_declares_payload(session: SessionModel)
    ensures
        session.finalize_outcome() matches Ok(container) ==> {
            &&& container.consistent()
            &&& session.writer matches Some(writer)
            &&& container.samples == writer.samples
            &&& container.spec == writer.spec
        },
{
}

/// While the flag is up and the writer is there, any run of deliveries
/// leaves in the writer what was there before, followed by the samples of
/// the deliveries that got hold of the writer, in arrival order: nothing is
/// reordered, repeated or lost but the buffers dropped under contention.
pub proof fn lemma_arrival_order(session: SessionModel, events: Seq<DeliveryEvent>)
    requires
        session.recording,
        session.writer is Some,
    ensures
        session.replayed(events) == (SessionModel {
            writer: Some(
                WriterModel {
                    spec: session.writer->0.spec,
                    samples: session.writer->0.samples + accepted(events),
                },
            ),
            ..session
        }),
    decreases events.len(),
{
    let writer = session.writer->0;
    if events.len() == 0 {
        assert(writer.samples + accepted(events) == writer.samples);
    } else {
        lemma_arrival_order(session, events.drop_last());
        let before = accepted(events.drop_last());
        if events.last().acquired {
            assert((writer.samples + before) + events.last().samples == writer.samples + (before
                + events.last().samples));
        }
    }
}

/// Whether every delivery of a run that got hold of the writer brought whole
/// frames of `channels` samples.
pub open spec fn whole_frames(events: Seq<DeliveryEvent>, channels: nat) -> bool {
    forall|index: int|
        0 <= index < events.len() && (#[trigger] events[index]).acquired
            ==> events[index].samples.len() % channels == 0
}

/// The samples accepted from a run of whole-frame deliveries are whole
/// frames.
proof fn lemma_accepted_whole(events: Seq<DeliveryEvent>, channels: nat)
    requires
        channels == 1 || channels == 2,
        whole_frames(events, channels),
    ensures
        accepted(events).len() % channels == 0,
    decreases events.len(),
{
    if events.len() > 0 {
        let earlier = events.drop_last();
        assert(whole_frames(earlier, channels)) by {
            assert forall|index: int|
                0 <= index < earlier.len() && (#[trigger] earlier[index]).acquired implies
                earlier[index].samples.len() % channels == 0 by {
                assert(earlier[index] == events[index]);
            }
        }
        lemma_accepted_whole(earlier, channels);
        assert(events.last() == events[events.len() - 1]);
    }
}

/// A session that is fed whole frames holds whole frames: if the writer
/// starts with whole frames and every delivery that reaches it brings whole
/// frames, the container that finalize returns is frame-aligned, however
/// many buffers were dropped on the way.
pub proof fn lemma_whole_frames_stay_whole(session: SessionModel, events: Seq<DeliveryEvent>)
    requires
        session.recording,
        session.writer matches Some(writer) && {
            &&& writer.spec.channels == 1 || writer.spec.channels == 2
            &&& writer.samples.len() % (writer.spec.channels as nat) == 0
        },
        whole_frames(events, session.writer->0.spec.channels as nat),
    ensures
        session.replayed(events).finalize_outcome() matches Ok(container)
            ==> container.frame_aligned(),
{
    lemma_arrival_order(session, events);
    lemma_accepted_whole(events, session.writer->0.spec.channels as nat);
}

/// Finalize reclaims the writer once. After any finalize the writer is gone,
/// a further finalize fails with `AlreadyFinalized` and leaves the session
/// as it is, and a further delivery writes nothing.
pub proof fn lemma_finalize_once(session: SessionModel, samples: Seq<i16>, acquired: bool)
    ensures
        session.finalized().writer is None,
        session.finalized().finalize_outcome() == Err::<ContainerModel, CaptureError>(
            CaptureError::AlreadyFinalized,
        ),
        session.finalized().finalized() == session.finalized(),
        session.finalized().delivered(samples, acquired) == session.finalized(),
{
}

/// A buffer delivered after the stop signal never reaches the container:
/// the delivery is ignored, the session stays as it was and finalize returns
/// what it would have returned without the delivery.
pub proof fn lemma_stale_after_stop(session: SessionModel, samples: Seq<i16>, acquired: bool)
    ensures
        session.stopped().delivery(samples.len(), acquired) == Delivery::Ignored,
        session.stopped().delivered(samples, acquired) == session.stopped(),
        session.stopped().delivered(samples, acquired).finalize_outcome()
            == session.stopped().finalize_outcome(),
{
}

/// There is no way back. No operation moves a session to an earlier state,
/// a delivery never changes the state, and a stopped session stays stopped
/// whatever is done to it.
pub proof fn lemma_no_way_back(session: SessionModel, samples: Seq<i16>, acquired: bool)
    ensures
        session.begun().state.rank() >= session.state.rank(),
        session.delivered(samples, acquired).state == session.state,
        session.stopped().state == SessionState::Stopped,
        session.finalized().state.rank() >= session.state.rank(),
        session.state == SessionState::Stopped ==> session.begun() == session,
        session.state == SessionState::Stopped ==> session.finalized().state
            == SessionState::Stopped,
{
}

/// With the flag down, no run of deliveries changes the session.
pub proof fn lemma_flag_down_ignores_all(session: SessionModel, events: Seq<DeliveryEvent>)
    requires
        !session.recording,
    ensures
        session.replayed(events) == session,
    decreases events.len(),
{
    if events.len() > 0 {
        lemma_flag_down_ignores_all(session, events.drop_last());
    }
}

/// One recording. The session owns its writer exclusively until `finalize`
/// takes it away, which happens at most once.
#[derive(Debug)]
pub struct CaptureSession {
    state: SessionState,
    format: StreamFormat,
    recording: bool,
    writer: Option<ContainerWriter>,
}

impl View for CaptureSession {
    type V = SessionModel;

    closed spec fn view(&self) -> SessionModel {
        SessionModel {
            state: self.state,
            format: self.format,
            recording: self.recording,
            writer: match self.writer {
                Some(writer) => Some(writer@),
                None => None,
            },
        }
    }
}

/// Normalises every sample of `buffer` and appends it to `writer`, in the
/// buffer's order.
fn append_normalized(writer: &mut ContainerWriter, buffer: &SampleBuffer)
    ensures
        final(writer)@ == (WriterModel {
            spec: old(writer)@.spec,
            samples: old(writer)@.samples + buffer.normalized(),
        }),
{
    let count: usize = buffer.len();
    let mut index: usize = 0;
    while index < count
        invariant
            index <= count,
            count == buffer.normalized().len(),
            count == buffer.raw().len(),
            writer@.spec == old(writer)@.spec,
            writer@.samples == old(writer)@.samples + buffer.normalized().subrange(
                0,
                index as int,
            ),
        decreases count - index,
    {
        let value: i16 = normalize(buffer.get(index));
        writer.write_sample(value);
        index = index + 1;
    }
    assert(buffer.normalized().subrange(0, count as int) == buffer.normalized());
}

impl CaptureSession {
    /// Opens a session for `format`: the writer is created with the header
    /// derived from the format, the flag is down, nothing is written yet.
    /// Fails with `SinkCreateFailed` exactly when the writer cannot produce
    /// that header.
    pub fn open(format: StreamFormat) -> (result: Result<CaptureSession, CaptureError>)
        ensures
            wav_spec(format).writable() ==> (result matches Ok(session) && session@
                == SessionModel::opened(format)),
            !wav_spec(format).writable() ==> (result matches Err(error) && error
                == CaptureError::SinkCreateFailed),
    {
        match ContainerWriter::create(wav_spec_from_format(&format)) {
            Ok(writer) => Ok(
                CaptureSession {
                    state: SessionState::Idle,
                    format,
                    recording: false,
                    writer: Some(writer),
                },
            ),
            Err(error) => Err(error),
        }
    }

    /// The start signal: an idle session begins to record and raises its
    /// flag. On any other session this changes nothing.
    pub fn begin(&mut self)
        ensures
            final(self)@ == old(self)@.begun(),
    {
        if self.state == SessionState::Idle {
            self.state = SessionState::Recording;
            self.recording = true;
        }
    }

    /// Opens a session for `format` and starts it at once.
    pub fn start(format: StreamFormat) -> (result: Result<CaptureSession, CaptureError>)
        ensures
            wav_spec(format).writable() ==> (result matches Ok(session) && session@
                == SessionModel::opened(format).begun()),
            !wav_spec(format).writable() ==> (result matches Err(error) && error
                == CaptureError::SinkCreateFailed),
    {
        match CaptureSession::open(format) {
            Ok(mut session) => {
                session.begin();
                Ok(session)
            },
            Err(error) => Err(error),
        }
    }

    /// One delivery from the producer. `acquired` says whether the producer's
    /// non-blocking attempt to get hold of the writer succeeded. The buffer
    /// is written, whole and in order, only if the flag is up, the attempt
    /// succeeded and the writer is still there; otherwise it is dropped and
    /// the session stays as it was.
    pub fn deliver(&mut self, buffer: &SampleBuffer, acquired: bool) -> (outcome: Delivery)
        ensures
            final(self)@ == old(self)@.delivered(buffer.normalized(), acquired),
            outcome == old(self)@.delivery(buffer.normalized().len(), acquired),
    {
        if !self.recording {
            return Delivery::Ignored;
        }
        if !acquired {
            return Delivery::Dropped;
        }
        match self.writer.take() {
            None => Delivery::Closed,
            Some(mut writer) => {
                append_normalized(&mut writer, buffer);
                self.writer = Some(writer);
                Delivery::Written(buffer.len())
            },
        }
    }

    /// The stop signal: lowers the flag, so that every later delivery is
    /// ignored, and marks the session stopped.
    pub fn stop(&mut self)
        ensures
            final(self)@ == old(self)@.stopped(),
    {
        self.recording = false;
        self.state = SessionState::Stopped;
    }

    /// Takes the writer away from the session, closes it and returns the
    /// finished container. The first call gets the writer, whatever it then
    /// returns; every later call fails with `AlreadyFinalized` and touches
    /// nothing.
    pub fn finalize(&mut self) -> (result: Result<AudioContainer, CaptureError>)
        ensures
            final(self)@ == old(self)@.finalized(),
            match result {
                Ok(container) => old(self)@.finalize_outcome() == Ok::<
                    ContainerModel,
                    CaptureError,
                >(container@),
                Err(error) => old(self)@.finalize_outcome() == Err::<ContainerModel, CaptureError>(
                    error,
                ),
            },
    {
        match self.writer.take() {
            None => Err(CaptureError::AlreadyFinalized),
            Some(writer) => {
                self.state = SessionState::Stopped;
                writer.finalize()
            },
        }
    }

    /// Where the session is in its life.
    pub fn state(&self) -> (state: SessionState)
        ensures
            state == self@.state,
    {
        self.state
    }

    /// The format the session was opened with.
    pub fn format(&self) -> (format: StreamFormat)
        ensures
            format == self@.format,
    {
        self.format
    }

    /// Whether the recording flag is up.
    pub fn is_recording(&self) -> (recording: bool)
        ensures
            recording == self@.recording,
    {
        self.recording
    }

    /// Whether the session still has its writer.
    pub fn has_writer(&self) -> (present: bool)
        ensures
            present == self@.writer is Some,
    {
        self.writer.is_some()
    }
}

} // verus!
