//! The capture manager: one input stream at a time, and the samples of the
//! recording under way.
//!
//! The manager decides and keeps the samples; the caller owns the hardware.
//! A recording is started in two steps and stopped in three, and the caller
//! does its part between them:
//!
//! 1. `begin_start`, then open the stream, then `finish_start` with how that
//!    went.
//! 2. `begin_stop`, then close the stream, then `drain`, then write the
//!    samples to a file, then `finish_stop` with how that went.
//!
//! While the stream is open, each chunk of samples goes to `deliver`.

use crate::analyzer::{MeterView, Reading, SpectrumMeter};
use crate::status::NUM_BANDS;
use vstd::prelude::*;
use vstd::string::*;

verus! {

/// State of the recording session.
#[derive(Clone, Copy, Debug, PartialEq, Eq, Structural)]
pub enum RecordingState {
    Idle,
    Recording,
    Stopping,
}

/// Why the capture manager refused a step, or what went wrong in it.
#[derive(Debug, PartialEq, Eq)]
pub enum CaptureError {
    /// A start was asked for while a recording runs or is being started.
    AlreadyRecording,
    /// A start was asked for while the recording before it is being stopped.
    StillStopping,
    /// A stop was asked for while nothing is recorded.
    NotRecording,
    /// A stop was asked for while the recording is already being stopped.
    AlreadyStopping,
    /// A step was reported that the manager was not waiting for.
    OutOfTurn,
    /// The recording was stopped and held no samples.
    EmptyCapture,
    /// The input stream could not be opened.
    Device(String),
    /// The samples could not be written to the file.
    Persist(String),
}

/// The kinds of failure of the capture manager.
#[derive(Clone, Copy, Debug, PartialEq, Eq, Structural)]
pub enum CaptureErrorKind {
    StateConflict,
    DeviceError,
    EmptyCapture,
    PersistError,
}

/// The mathematical value of a `CaptureError`.
pub enum CaptureErrorView {
    AlreadyRecording,
    StillStopping,
    NotRecording,
    AlreadyStopping,
    OutOfTurn,
    EmptyCapture,
    Device(Seq<char>),
    Persist(Seq<char>),
}

impl View for CaptureError {
    type V = CaptureErrorView;

    open spec fn view(&self) -> CaptureErrorView {
        match *self {
            CaptureError::AlreadyRecording => CaptureErrorView::AlreadyRecording,
            CaptureError::StillStopping => CaptureErrorView::StillStopping,
            CaptureError::NotRecording => CaptureErrorView::NotRecording,
            CaptureError::AlreadyStopping => CaptureErrorView::AlreadyStopping,
            CaptureError::OutOfTurn => CaptureErrorView::OutOfTurn,
            CaptureError::EmptyCapture => CaptureErrorView::EmptyCapture,
            CaptureError::Device(m) => CaptureErrorView::Device(m@),
            CaptureError::Persist(m) => CaptureErrorView::Persist(m@),
        }
    }
}

impl CaptureErrorView {
    /// The kind of this failure.
    pub open spec fn kind(self) -> CaptureErrorKind {
        match self {
            CaptureErrorView::EmptyCapture => CaptureErrorKind::EmptyCapture,
            CaptureErrorView::Device(_) => CaptureErrorKind::DeviceError,
            CaptureErrorView::Persist(_) => CaptureErrorKind::PersistError,
            _ => CaptureErrorKind::StateConflict,
        }
    }

    /// The message of this failure.
    pub open spec fn message(self) -> Seq<char> {
        match self {
            CaptureErrorView::AlreadyRecording => "Recording already in progress"@,
            CaptureErrorView::StillStopping => "Previous recording still stopping"@,
            CaptureErrorView::NotRecording => "No recording in progress"@,
            CaptureErrorView::AlreadyStopping => "Recording already stopping"@,
            CaptureErrorView::OutOfTurn => "Capture step out of turn"@,
            CaptureErrorView::EmptyCapture => "No audio samples recorded"@,
            CaptureErrorView::Device(m) => m,
            CaptureErrorView::Persist(m) => m,
        }
    }
}

impl CaptureError {
    /// The kind of this failure.
    pub fn kind(&self) -> (r: CaptureErrorKind)
        ensures
            r == self@.kind(),
    {
        match self {
            CaptureError::EmptyCapture => CaptureErrorKind::EmptyCapture,
            CaptureError::Device(_) => CaptureErrorKind::DeviceError,
            CaptureError::Persist(_) => CaptureErrorKind::PersistError,
            _ => CaptureErrorKind::StateConflict,
        }
    }

    /// The message of this failure.
    pub fn message(&self) -> (r: String)
        ensures
            r@ == self@.message(),
    {
        match self {
            CaptureError::AlreadyRecording => "Recording already in progress".to_owned(),
            CaptureError::StillStopping => "Previous recording still stopping".to_owned(),
            CaptureError::NotRecording => "No recording in progress".to_owned(),
            CaptureError::AlreadyStopping => "Recording already stopping".to_owned(),
            CaptureError::OutOfTurn => "Capture step out of turn".to_owned(),
            CaptureError::EmptyCapture => "No audio samples recorded".to_owned(),
            CaptureError::Device(m) => m.clone(),
            CaptureError::Persist(m) => m.clone(),
        }
    }
}

/// The whole state of the capture manager.
pub struct CaptureView<T> {
    pub state: RecordingState,
    /// A start was begun and has not been finished.
    pub opening: bool,
    /// The input stream is open.
    pub stream_open: bool,
    /// The samples of the recording under way.
    pub samples: Seq<T>,
    /// The most samples that one recording keeps.
    pub limit: nat,
    /// The levels that the manager shows.
    pub meter: MeterView,
}

impl<T> CaptureView<T> {
    /// Whether this is a state that the manager can be in: the stream is
    /// open only while a recording runs or is being stopped, a start is
    /// under way only from idle, and no more samples are kept than the limit.
    pub open spec fn wf(self) -> bool {
        &&& self.stream_open ==> self.state != RecordingState::Idle
        &&& self.state == RecordingState::Recording ==> self.stream_open
        &&& self.opening ==> self.state == RecordingState::Idle
        &&& self.samples.len() <= self.limit
        &&& self.meter.wf()
    }

    /// The state of a manager that has done nothing yet.
    pub open spec fn initial(limit: nat) -> CaptureView<T> {
        CaptureView {
            state: RecordingState::Idle,
            opening: false,
            stream_open: false,
            samples: Seq::empty(),
            limit,
            meter: MeterView::silent(),
        }
    }

    /// The error with which a start is refused, if it is.
    pub open spec fn start_refusal(self) -> Option<CaptureErrorView> {
        match self.state {
            RecordingState::Recording => Some(CaptureErrorView::AlreadyRecording),
            RecordingState::Stopping => Some(CaptureErrorView::StillStopping),
            RecordingState::Idle => if self.opening {
                Some(CaptureErrorView::AlreadyRecording)
            } else {
                None
            },
        }
    }

    /// The state after `begin_start`.
    pub open spec fn begin_start(self) -> CaptureView<T> {
        if self.start_refusal() is Some {
            self
        } else {
            CaptureView {
                opening: true,
                samples: Seq::empty(),
                meter: MeterView::silent(),
                ..self
            }
        }
    }

    /// The state after `finish_start`, where `opened` tells whether the
    /// stream was opened.
    pub open spec fn finish_start(self, opened: bool) -> CaptureView<T> {
        if !self.opening {
            self
        } else if opened {
            CaptureView {
                state: RecordingState::Recording,
                opening: false,
                stream_open: true,
                ..self
            }
        } else {
            CaptureView { opening: false, ..self }
        }
    }

    /// The number of samples of a chunk of `offered` samples that are kept.
    pub open spec fn room_for(self, offered: nat) -> nat {
        if !self.stream_open {
            0
        } else if self.samples.len() + offered <= self.limit {
            offered
        } else {
            (self.limit - self.samples.len()) as nat
        }
    }

    /// The state after the samples of `chunk` came in. What does not fit
    /// under the limit is dropped, and so is everything while no stream is
    /// open.
    pub open spec fn deliver(self, chunk: Seq<T>) -> CaptureView<T> {
        CaptureView { samples: self.samples + chunk.take(self.room_for(chunk.len()) as int), ..self }
    }

    /// The state after `reading` was measured: the levels take it in while
    /// the stream is open, and stay as they are while it is not.
    pub open spec fn measure(self, reading: Reading) -> CaptureView<T> {
        if self.stream_open {
            CaptureView { meter: self.meter.ingested(reading), ..self }
        } else {
            self
        }
    }

    /// The error with which a stop is refused, if it is.
    pub open spec fn stop_refusal(self) -> Option<CaptureErrorView> {
        match self.state {
            RecordingState::Idle => Some(CaptureErrorView::NotRecording),
            RecordingState::Stopping => Some(CaptureErrorView::AlreadyStopping),
            RecordingState::Recording => None,
        }
    }

    /// The state after `begin_stop`.
    pub open spec fn begin_stop(self) -> CaptureView<T> {
        if self.stop_refusal() is Some {
            self
        } else {
            CaptureView { state: RecordingState::Stopping, ..self }
        }
    }

    /// What `drain` returns: the samples, or why there are none.
    pub open spec fn drained(self) -> Result<Seq<T>, CaptureErrorView> {
        if self.state != RecordingState::Stopping || !self.stream_open {
            Err(CaptureErrorView::OutOfTurn)
        } else if self.samples.len() == 0 {
            Err(CaptureErrorView::EmptyCapture)
        } else {
            Ok(self.samples)
        }
    }

    /// The state after `drain`: the stream is closed and the samples are
    /// gone; with no samples to write, the manager is idle again.
    pub open spec fn drain(self) -> CaptureView<T> {
        if self.state != RecordingState::Stopping || !self.stream_open {
            self
        } else {
            CaptureView {
                state: if self.samples.len() == 0 {
                    RecordingState::Idle
                } else {
                    RecordingState::Stopping
                },
                stream_open: false,
                samples: Seq::empty(),
                ..self
            }
        }
    }

    /// Whether the manager waits for the file to be written.
    pub open spec fn writing(self) -> bool {
        self.state == RecordingState::Stopping && !self.stream_open
    }

    /// The state after `finish_stop`: idle, however the writing went.
    pub open spec fn finish_stop(self) -> CaptureView<T> {
        if !self.writing() {
            self
        } else {
            CaptureView { state: RecordingState::Idle, samples: Seq::empty(), ..self }
        }
    }

    /// The state after `reset`: the levels are back at silence.
    pub open spec fn reset(self) -> CaptureView<T> {
        CaptureView { meter: MeterView::silent(), ..self }
    }
}

/// At most one stream is open: a start that is accepted finds none open, and
/// while one is open, or a start is under way, every further start is refused
/// and changes nothing.
pub proof fn law_single_stream<T>(v: CaptureView<T>)
    requires
        v.wf(),
    ensures
        v.start_refusal() is None ==> !v.stream_open,
        v.stream_open || v.opening ==> v.start_refusal() is Some && v.begin_start() == v,
        v.begin_start().wf(),
        v.begin_start().start_refusal() is Some,
{
}

/// Stopping a recording without samples reports an empty capture and leaves
/// the manager idle, with the stream closed.
pub proof fn law_empty_capture_returns_to_idle<T>(v: CaptureView<T>)
    requires
        v.wf(),
        v.state == RecordingState::Recording,
        v.samples.len() == 0,
    ensures
        v.stop_refusal() is None,
        v.begin_stop().drained() == Err::<Seq<T>, CaptureErrorView>(
            CaptureErrorView::EmptyCapture,
        ),
        v.begin_stop().drain().state == RecordingState::Idle,
        !v.begin_stop().drain().stream_open,
{
}

/// Every stop that is accepted ends idle with the stream closed and no
/// samples kept, whether samples were captured and however the writing went.
pub proof fn law_stop_always_returns_to_idle<T>(v: CaptureView<T>)
    requires
        v.wf(),
        v.state == RecordingState::Recording,
    ensures
        ({
            let after = v.begin_stop().drain();
            let end = if after.writing() {
                after.finish_stop()
            } else {
                after
            };
            end.state == RecordingState::Idle && !end.stream_open && end.samples.len() == 0
                && end.wf()
        }),
{
}

/// The capture manager.
pub struct AudioStreamManager<T> {
    state: RecordingState,
    opening: bool,
    stream_open: bool,
    samples: Vec<T>,
    limit: usize,
    meter: SpectrumMeter,
}

impl<T: Copy> View for AudioStreamManager<T> {
    type V = CaptureView<T>;

    closed spec fn view(&self) -> CaptureView<T> {
        CaptureView {
            state: self.state,
            opening: self.opening,
            stream_open: self.stream_open,
            samples: self.samples@,
            limit: self.limit as nat,
            meter: self.meter@,
        }
    }
}

impl<T: Copy> AudioStreamManager<T> {
    /// Whether the manager is in a state it can be in.
    pub open spec fn wf(&self) -> bool {
        self@.wf()
    }

    /// An idle manager that keeps at most `limit` samples of a recording.
    pub fn new(limit: usize) -> (r: Self)
        ensures
            r.wf(),
            r@ == CaptureView::<T>::initial(limit as nat),
    {
        AudioStreamManager {
            state: RecordingState::Idle,
            opening: false,
            stream_open: false,
            samples: Vec::new(),
            limit,
            meter: SpectrumMeter::new(),
        }
    }

    /// The state of the recording session.
    pub fn state(&self) -> (r: RecordingState)
        ensures
            r == self@.state,
    {
        self.state
    }

    /// The number of samples kept.
    pub fn sample_count(&self) -> (r: usize)
        ensures
            r == self@.samples.len(),
    {
        self.samples.len()
    }

    /// The level of the signal as a whole, in thousandths.
    pub fn get_audio_level(&self) -> (r: u16)
        ensures
            r == self@.meter.level,
    {
        self.meter.get_audio_level()
    }

    /// The smoothed level of each band, in thousandths.
    pub fn get_frequency_bands(&self) -> (r: [u16; NUM_BANDS])
        ensures
            r@ == self@.meter.bands,
    {
        self.meter.get_bands()
    }

    /// Brings the levels back to silence.
    pub fn reset(&mut self)
        requires
            old(self).wf(),
        ensures
            final(self).wf(),
            final(self)@ == old(self)@.reset(),
    {
        self.meter.reset();
    }

    /// First step of a start. Refused while a recording runs, is being
    /// started or is being stopped; otherwise the samples of the recording
    /// before are dropped, the levels go back to silence, and the caller is
    /// to open the stream.
    pub fn begin_start(&mut self) -> (r: Result<(), CaptureError>)
        requires
            old(self).wf(),
        ensures
            final(self).wf(),
            final(self)@ == old(self)@.begin_start(),
            match r {
                Ok(_) => old(self)@.start_refusal() is None,
                Err(e) => old(self)@.start_refusal() == Some(e@),
            },
    {
        match self.state {
            RecordingState::Recording => Err(CaptureError::AlreadyRecording),
            RecordingState::Stopping => Err(CaptureError::StillStopping),
            RecordingState::Idle => {
                if self.opening {
                    return Err(CaptureError::AlreadyRecording);
                }
                self.samples.clear();
                self.meter.reset();
                self.opening = true;
                Ok(())
            },
        }
    }

    /// Second step of a start, with how the opening of the stream went. With
    /// the stream open the recording runs; with the message of a failure the
    /// manager stays idle and reports a device error.
    pub fn finish_start(&mut self, opened: Result<(), String>) -> (r: Result<(), CaptureError>)
        requires
            old(self).wf(),
        ensures
            final(self).wf(),
            final(self)@ == old(self)@.finish_start(opened is Ok),
            match r {
                Ok(_) => old(self)@.opening && opened is Ok,
                Err(e) => if !old(self)@.opening {
                    e@ == CaptureErrorView::OutOfTurn
                } else {
                    opened matches Err(m) && e@ == CaptureErrorView::Device(m@)
                },
            },
    {
        if !self.opening {
            return Err(CaptureError::OutOfTurn);
        }
        self.opening = false;
        match opened {
            Ok(_) => {
                self.state = RecordingState::Recording;
                self.stream_open = true;
                Ok(())
            },
            Err(message) => Err(CaptureError::Device(message)),
        }
    }

    /// Takes one chunk of samples from the stream, as far as it fits under
    /// the limit. Without an open stream nothing is kept.
    pub fn deliver(&mut self, chunk: &[T])
        requires
            old(self).wf(),
        ensures
            final(self).wf(),
            final(self)@ == old(self)@.deliver(chunk@),
    {
        if !self.stream_open {
            assert(self@ == old(self)@.deliver(chunk@)) by {
                assert(self@.samples + chunk@.take(0) =~= self@.samples);
            }
            return ;
        }
        let free = self.limit - self.samples.len();
        let take = if chunk.len() <= free {
            chunk.len()
        } else {
            free
        };
        let mut i: usize = 0;
        assert(self.samples@ =~= old(self).samples@ + chunk@.take(0));
        while i < take
            invariant
                i <= take <= chunk@.len(),
                self.state == old(self).state,
                self.opening == old(self).opening,
                self.stream_open == old(self).stream_open,
                self.limit == old(self).limit,
                self.meter == old(self).meter,
                old(self).samples@.len() + take <= self.limit,
                self.samples@ == old(self).samples@ + chunk@.take(i as int),
            decreases take - i,
        {
            self.samples.push(chunk[i]);
            assert(self.samples@ =~= old(self).samples@ + chunk@.take(i + 1));
            i += 1;
        }
    }

    /// Takes what one chunk measures into the levels that the manager shows,
    /// while the stream is open. An empty chunk raises nothing.
    pub fn measure(&mut self, reading: &Reading)
        requires
            old(self).wf(),
        ensures
            final(self).wf(),
            final(self)@ == old(self)@.measure(*reading),
    {
        if self.stream_open {
            self.meter.ingest(reading);
        }
    }

    /// First step of a stop. Refused while nothing is recorded or a stop is
    /// under way; otherwise the caller is to close the stream.
    pub fn begin_stop(&mut self) -> (r: Result<(), CaptureError>)
        requires
            old(self).wf(),
        ensures
            final(self).wf(),
            final(self)@ == old(self)@.begin_stop(),
            match r {
                Ok(_) => old(self)@.stop_refusal() is None,
                Err(e) => old(self)@.stop_refusal() == Some(e@),
            },
    {
        match self.state {
            RecordingState::Idle => Err(CaptureError::NotRecording),
            RecordingState::Stopping => Err(CaptureError::AlreadyStopping),
            RecordingState::Recording => {
                self.state = RecordingState::Stopping;
                Ok(())
            },
        }
    }

    /// Second step of a stop, once the stream is closed: hands the samples
    /// over. With no samples the manager is idle again and reports an empty
    /// capture; otherwise the caller is to write the samples to the file.
    pub fn drain(&mut self) -> (r: Result<Vec<T>, CaptureError>)
        requires
            old(self).wf(),
        ensures
            final(self).wf(),
            final(self)@ == old(self)@.drain(),
            match r {
                Ok(samples) => old(self)@.drained() == Ok::<Seq<T>, CaptureErrorView>(samples@),
                Err(e) => old(self)@.drained() == Err::<Seq<T>, CaptureErrorView>(e@),
            },
    {
        if self.state != RecordingState::Stopping || !self.stream_open {
            return Err(CaptureError::OutOfTurn);
        }
        self.stream_open = false;
        let mut samples: Vec<T> = Vec::new();
        core::mem::swap(&mut samples, &mut self.samples);
        if samples.len() == 0 {
            self.state = RecordingState::Idle;
            Err(CaptureError::EmptyCapture)
        } else {
            Ok(samples)
        }
    }

    /// Last step of a stop, with how the writing of the file went: the path
    /// of the file, or the message of a failure. The manager is idle again
    /// either way.
    pub fn finish_stop(&mut self, written: Result<String, String>) -> (r: Result<
        String,
        CaptureError,
    >)
        requires
            old(self).wf(),
        ensures
            final(self).wf(),
            final(self)@ == old(self)@.finish_stop(),
            match r {
                Ok(path) => old(self)@.writing() && written == Ok::<String, String>(path),
                Err(e) => if !old(self)@.writing() {
                    e@ == CaptureErrorView::OutOfTurn
                } else {
                    written matches Err(m) && e@ == CaptureErrorView::Persist(m@)
                },
            },
    {
        if self.state != RecordingState::Stopping || self.stream_open {
            return Err(CaptureError::OutOfTurn);
        }
        self.state = RecordingState::Idle;
        self.samples.clear();
        match written {
            Ok(path) => Ok(path),
            Err(message) => Err(CaptureError::Persist(message)),
        }
    }
}

} // verus!
