//! The recording machine: one job at a time, from toggle to delivered text.
//!
//! The machine decides, the caller acts. Each call of `handle` takes one
//! event, moves the machine to its next state and hands back the action that
//! is owed next: start the capture, stop it, transcribe, copy, inject, record.
//! The caller carries the action out and reports how it went with the next
//! event. Nothing here waits, reads or writes.
//!
//! `Model` is the control state alone, without any text. The laws of the
//! machine are stated and proved over it.

use crate::analyzer::{clamp, clamped};
use crate::status::{
    effective_options, BehaviorOptions, CompletedJob, CompletedJobView, JobOptions, RecordingPhase,
    RecordingStatus, StatusView, NUM_BANDS,
};
use crate::text::{decimal, to_decimal};
use vstd::prelude::*;
use vstd::string::*;

verus! {

/// Where the job in flight stands. `Starting` and the stages from `Stopping`
/// on are not told apart by observers: they see the phase only.
#[derive(Clone, Copy, Debug, PartialEq, Eq, Structural)]
pub enum Stage {
    /// No job in flight: the phase is `Idle` or `Error`.
    AtRest,
    /// A start of the capture was asked for and has not been answered.
    Starting,
    /// The capture runs.
    Recording,
    /// A stop of the capture was asked for and has not been answered.
    Stopping,
    /// The audio file is with the transcription backend.
    Transcribing,
    /// The text is being put on the clipboard.
    Copying,
    /// The text is being injected into the focused application.
    Injecting,
    /// The text is being recorded in the history.
    Archiving,
}

/// What an event is, without what it carries.
#[derive(Clone, Copy, Debug, PartialEq, Eq, Structural)]
pub enum Signal {
    Toggle(Option<JobOptions>),
    CaptureStarted,
    CaptureStartFailed,
    CaptureStopped,
    CaptureStopFailed,
    Transcribed,
    TranscriptionFailed,
    Copied,
    CopyFailed,
    Injected,
    InjectFailed,
    HistoryRecorded,
}

/// Why the machine refused an event.
#[derive(Clone, Copy, Debug, PartialEq, Eq, Structural)]
pub enum MachineError {
    /// A toggle came while a start or the processing of a job was under way.
    StateConflict,
    /// A toggle came at rest, but no job identifier is left.
    JobIdsExhausted,
    /// A report came that answers no action the machine is waiting for.
    UnexpectedEvent,
}

/// The control state of the machine.
pub struct Model {
    pub stage: Stage,
    /// The phase that observers see.
    pub phase: RecordingPhase,
    /// The job in flight. It means nothing at rest.
    pub job_id: u64,
    /// The options of the job in flight.
    pub options: JobOptions,
    /// The job that observers see as current.
    pub current_job_id: Option<u64>,
    /// The job that observers see as the last completed one.
    pub last_completed: Option<u64>,
    /// The identifier that the next job gets.
    pub next_job_id: u64,
    pub defaults: BehaviorOptions,
}

/// Whether `m` is a state that the machine can be in.
pub open spec fn model_wf(m: Model) -> bool {
    &&& 1 <= m.next_job_id
    &&& m.last_completed matches Some(done) ==> done < m.next_job_id
    &&& match m.stage {
        Stage::AtRest => m.phase.at_rest() && m.current_job_id is None,
        Stage::Starting => m.phase.at_rest() && m.current_job_id is None && in_flight_wf(m),
        Stage::Recording => m.phase == RecordingPhase::Recording && m.current_job_id == Some(
            m.job_id,
        ) && in_flight_wf(m),
        _ => m.phase == RecordingPhase::Processing && m.current_job_id == Some(m.job_id)
            && in_flight_wf(m),
    }
}

/// The job in flight is younger than the next one and older than no completed one.
pub open spec fn in_flight_wf(m: Model) -> bool {
    &&& 1 <= m.job_id < m.next_job_id
    &&& m.last_completed matches Some(done) ==> done < m.job_id
}

/// Whether the machine takes `sig` in state `m`.
pub open spec fn accepts(m: Model, sig: Signal) -> bool {
    match sig {
        Signal::Toggle(_) => (m.stage == Stage::AtRest && m.next_job_id < u64::MAX) || m.stage
            == Stage::Recording,
        Signal::CaptureStarted | Signal::CaptureStartFailed => m.stage == Stage::Starting,
        Signal::CaptureStopped | Signal::CaptureStopFailed => m.stage == Stage::Stopping,
        Signal::Transcribed | Signal::TranscriptionFailed => m.stage == Stage::Transcribing,
        Signal::Copied | Signal::CopyFailed => m.stage == Stage::Copying,
        Signal::Injected | Signal::InjectFailed => m.stage == Stage::Injecting,
        Signal::HistoryRecorded => m.stage == Stage::Archiving,
    }
}

/// The error with which the machine refuses `sig` in state `m`.
pub open spec fn refusal(m: Model, sig: Signal) -> MachineError {
    match sig {
        Signal::Toggle(_) => if m.stage == Stage::AtRest {
            MachineError::JobIdsExhausted
        } else {
            MachineError::StateConflict
        },
        _ => MachineError::UnexpectedEvent,
    }
}

/// Whether `sig` reports that an action failed.
pub open spec fn is_failure(sig: Signal) -> bool {
    sig == Signal::CaptureStartFailed || sig == Signal::CaptureStopFailed || sig
        == Signal::TranscriptionFailed || sig == Signal::CopyFailed || sig == Signal::InjectFailed
}

/// The stage that follows a successful transcription.
pub open spec fn after_text(options: JobOptions) -> Stage {
    if options.copy_to_clipboard {
        Stage::Copying
    } else {
        after_copy(options)
    }
}

/// The stage that follows the clipboard.
pub open spec fn after_copy(options: JobOptions) -> Stage {
    if options.auto_paste {
        Stage::Injecting
    } else {
        Stage::Archiving
    }
}

/// The state after `sig` in state `m`. A signal that is not accepted leaves
/// the state as it is.
pub open spec fn model_next(m: Model, sig: Signal) -> Model {
    if !accepts(m, sig) {
        m
    } else if is_failure(sig) {
        Model { stage: Stage::AtRest, phase: RecordingPhase::Error, current_job_id: None, ..m }
    } else {
        match sig {
            Signal::Toggle(given) => if m.stage == Stage::AtRest {
                Model {
                    stage: Stage::Starting,
                    job_id: m.next_job_id,
                    options: effective_options(m.defaults, given),
                    next_job_id: (m.next_job_id + 1) as u64,
                    ..m
                }
            } else {
                Model { stage: Stage::Stopping, phase: RecordingPhase::Processing, ..m }
            },
            Signal::CaptureStarted => Model {
                stage: Stage::Recording,
                phase: RecordingPhase::Recording,
                current_job_id: Some(m.job_id),
                ..m
            },
            Signal::CaptureStopped => Model { stage: Stage::Transcribing, ..m },
            Signal::Transcribed => Model { stage: after_text(m.options), ..m },
            Signal::Copied => Model { stage: after_copy(m.options), ..m },
            Signal::Injected => Model { stage: Stage::Archiving, ..m },
            _ => Model {
                stage: Stage::AtRest,
                phase: RecordingPhase::Idle,
                current_job_id: None,
                last_completed: Some(m.job_id),
                ..m
            },
        }
    }
}

/// The state after the signals `sigs`, one after the other, from state `m`.
pub open spec fn run(m: Model, sigs: Seq<Signal>) -> Model
    decreases sigs.len(),
{
    if sigs.len() == 0 {
        m
    } else {
        run(model_next(m, sigs[0]), sigs.drop_first())
    }
}

/// Whether observers may see phase `to` directly after phase `from`.
pub open spec fn phase_edge(from: RecordingPhase, to: RecordingPhase) -> bool {
    match from {
        RecordingPhase::Idle | RecordingPhase::Error => to == RecordingPhase::Recording || to
            == RecordingPhase::Error,
        RecordingPhase::Recording => to == RecordingPhase::Processing,
        RecordingPhase::Processing => to == RecordingPhase::Idle || to == RecordingPhase::Error,
    }
}

/// Whether `sig` starts a new job in state `m`.
pub open spec fn starts_job(m: Model, sig: Signal) -> bool {
    sig is Toggle && m.stage == Stage::AtRest && accepts(m, sig)
}

/// Every step leaves the machine in a state it can be in.
pub proof fn law_step_keeps_wf(m: Model, sig: Signal)
    requires
        model_wf(m),
    ensures
        model_wf(model_next(m, sig)),
{
}

/// Every run leaves the machine in a state it can be in, and never lowers
/// the identifier that the next job gets.
pub proof fn law_run_keeps_wf(m: Model, sigs: Seq<Signal>)
    requires
        model_wf(m),
    ensures
        model_wf(run(m, sigs)),
        m.next_job_id <= run(m, sigs).next_job_id,
    decreases sigs.len(),
{
    if sigs.len() > 0 {
        law_step_keeps_wf(m, sigs[0]);
        law_run_keeps_wf(model_next(m, sigs[0]), sigs.drop_first());
    }
}

/// The phases that observers see form a walk of the transition table: a step
/// either leaves the phase as it is or follows an edge of `phase_edge`. From
/// `Recording` the only way on is `Processing`.
pub proof fn law_phase_walk(m: Model, sig: Signal)
    requires
        model_wf(m),
    ensures
        model_next(m, sig).phase == m.phase || phase_edge(m.phase, model_next(m, sig).phase),
        m.phase == RecordingPhase::Recording ==> model_next(m, sig).phase
            == RecordingPhase::Recording || model_next(m, sig).phase
            == RecordingPhase::Processing,
{
}

/// Along every run, each phase that is observed after another is equal to it
/// or follows it by an edge of `phase_edge`.
pub proof fn law_phase_walk_of_run(m: Model, sigs: Seq<Signal>, i: int)
    requires
        model_wf(m),
        0 <= i < sigs.len(),
    ensures
        ({
            let before = run(m, sigs.take(i));
            let after = run(m, sigs.take(i + 1));
            after.phase == before.phase || phase_edge(before.phase, after.phase)
        }),
{
    let before = run(m, sigs.take(i));
    law_run_keeps_wf(m, sigs.take(i));
    lemma_run_push(m, sigs.take(i), sigs[i]);
    assert(sigs.take(i).push(sigs[i]) =~= sigs.take(i + 1));
    law_phase_walk(before, sigs[i]);
}

/// Running `sigs` and then `last` is one step from the state after `sigs`.
pub proof fn lemma_run_push(m: Model, sigs: Seq<Signal>, last: Signal)
    ensures
        run(m, sigs.push(last)) == model_next(run(m, sigs), last),
    decreases sigs.len(),
{
    if sigs.len() == 0 {
        assert(sigs.push(last).drop_first() =~= sigs);
        assert(run(model_next(m, last), sigs) == model_next(m, last));
    } else {
        assert(sigs.push(last).drop_first() =~= sigs.drop_first().push(last));
        lemma_run_push(model_next(m, sigs[0]), sigs.drop_first(), last);
    }
}

/// Single flight: while a start is unanswered or a job is being processed, a
/// toggle is refused as a state conflict and changes nothing, so the current
/// job stays and no second capture is asked for.
pub proof fn law_single_flight(m: Model, given: Option<JobOptions>)
    requires
        model_wf(m),
        m.stage != Stage::AtRest,
        m.stage != Stage::Recording,
    ensures
        !accepts(m, Signal::Toggle(given)),
        refusal(m, Signal::Toggle(given)) == MachineError::StateConflict,
        model_next(m, Signal::Toggle(given)) == m,
{
}

/// At most one job is in flight: a job starts only at rest, and the job that
/// observers see as current is the one in flight.
pub proof fn law_one_job(m: Model, sig: Signal)
    requires
        model_wf(m),
    ensures
        model_next(m, sig).job_id != m.job_id ==> starts_job(m, sig),
        model_next(m, sig).current_job_id matches Some(id) ==> id == model_next(m, sig).job_id,
{
}

/// Job identifiers strictly increase: a job that starts after another,
/// whatever happened in between, has the greater identifier.
pub proof fn law_job_ids_increase(
    m: Model,
    first: Option<JobOptions>,
    between: Seq<Signal>,
    second: Option<JobOptions>,
)
    requires
        model_wf(m),
        starts_job(m, Signal::Toggle(first)),
        starts_job(run(model_next(m, Signal::Toggle(first)), between), Signal::Toggle(second)),
    ensures
        model_next(m, Signal::Toggle(first)).job_id < model_next(
            run(model_next(m, Signal::Toggle(first)), between),
            Signal::Toggle(second),
        ).job_id,
{
    let started = model_next(m, Signal::Toggle(first));
    law_step_keeps_wf(m, Signal::Toggle(first));
    law_run_keeps_wf(started, between);
}

/// A completed job that observers see is older than the job in flight.
pub proof fn law_completed_job_is_older(m: Model, sigs: Seq<Signal>)
    requires
        model_wf(m),
    ensures
        ({
            let now = run(m, sigs);
            now.last_completed matches Some(done) ==> (now.current_job_id matches Some(current)
                ==> done < current)
        }),
{
    law_run_keeps_wf(m, sigs);
}

/// A failure that the machine accepts ends the job in phase `Error`: the
/// machine is at rest, observers see no current job, and the last completed
/// job stays in view.
pub proof fn law_failure_ends_in_error(m: Model, sig: Signal)
    requires
        model_wf(m),
        accepts(m, sig),
        is_failure(sig),
    ensures
        model_next(m, sig).phase == RecordingPhase::Error,
        model_next(m, sig).stage == Stage::AtRest,
        model_next(m, sig).current_job_id is None,
        model_next(m, sig).last_completed == m.last_completed,
        model_next(m, sig).next_job_id == m.next_job_id,
{
}

/// A recording whose steps all succeed ends in phase `Idle` with its job as
/// the last completed one: after the toggle that stops it come the stop of
/// the capture, the transcription, the clipboard and the injection as far as
/// the options of the job ask for them, and the history.
pub proof fn law_success_completes_the_job(m: Model, given: Option<JobOptions>)
    requires
        model_wf(m),
        m.stage == Stage::Recording,
    ensures
        ({
            let stopping = model_next(m, Signal::Toggle(given));
            let stopped = model_next(stopping, Signal::CaptureStopped);
            let transcribed = model_next(stopped, Signal::Transcribed);
            let copied = if m.options.copy_to_clipboard {
                model_next(transcribed, Signal::Copied)
            } else {
                transcribed
            };
            let injected = if m.options.auto_paste {
                model_next(copied, Signal::Injected)
            } else {
                copied
            };
            let done = model_next(injected, Signal::HistoryRecorded);
            &&& stopping.phase == RecordingPhase::Processing
            &&& injected.phase == RecordingPhase::Processing
            &&& done.phase == RecordingPhase::Idle
            &&& done.stage == Stage::AtRest
            &&& done.current_job_id is None
            &&& done.last_completed == Some(m.job_id)
        }),
{
}

/// What happened, as the caller of the machine reports it.
#[derive(Debug, PartialEq, Eq)]
pub enum Event {
    /// A request to start or stop, with the options of the job if it names any.
    Toggle(Option<JobOptions>),
    /// The capture runs.
    CaptureStarted,
    /// The capture could not be started.
    CaptureStartFailed(String),
    /// The capture was stopped and written to the file at this path.
    CaptureStopped(String),
    /// The capture could not be stopped, held no samples or could not be written.
    CaptureStopFailed(String),
    /// The backend returned this text, already normalised.
    Transcribed(String),
    /// The backend failed.
    TranscriptionFailed(String),
    /// The text is on the clipboard.
    Copied,
    /// The clipboard refused the text.
    CopyFailed(String),
    /// The text was injected.
    Injected,
    /// The injection failed.
    InjectFailed(String),
    /// The history answered: with an identifier, or without one if it could not store the record.
    HistoryRecorded { history_id: Option<i64>, created_at: String },
}

/// The mathematical value of an `Event`.
pub enum EventView {
    Toggle(Option<JobOptions>),
    CaptureStarted,
    CaptureStartFailed(Seq<char>),
    CaptureStopped(Seq<char>),
    CaptureStopFailed(Seq<char>),
    Transcribed(Seq<char>),
    TranscriptionFailed(Seq<char>),
    Copied,
    CopyFailed(Seq<char>),
    Injected,
    InjectFailed(Seq<char>),
    HistoryRecorded { history_id: Option<i64>, created_at: Seq<char> },
}

impl View for Event {
    type V = EventView;

    open spec fn view(&self) -> EventView {
        match *self {
            Event::Toggle(given) => EventView::Toggle(given),
            Event::CaptureStarted => EventView::CaptureStarted,
            Event::CaptureStartFailed(m) => EventView::CaptureStartFailed(m@),
            Event::CaptureStopped(p) => EventView::CaptureStopped(p@),
            Event::CaptureStopFailed(m) => EventView::CaptureStopFailed(m@),
            Event::Transcribed(t) => EventView::Transcribed(t@),
            Event::TranscriptionFailed(m) => EventView::TranscriptionFailed(m@),
            Event::Copied => EventView::Copied,
            Event::CopyFailed(m) => EventView::CopyFailed(m@),
            Event::Injected => EventView::Injected,
            Event::InjectFailed(m) => EventView::InjectFailed(m@),
            Event::HistoryRecorded { history_id, created_at } => EventView::HistoryRecorded {
                history_id,
                created_at: created_at@,
            },
        }
    }
}

impl EventView {
    /// What this event is, without what it carries.
    pub open spec fn signal(self) -> Signal {
        match self {
            EventView::Toggle(given) => Signal::Toggle(given),
            EventView::CaptureStarted => Signal::CaptureStarted,
            EventView::CaptureStartFailed(_) => Signal::CaptureStartFailed,
            EventView::CaptureStopped(_) => Signal::CaptureStopped,
            EventView::CaptureStopFailed(_) => Signal::CaptureStopFailed,
            EventView::Transcribed(_) => Signal::Transcribed,
            EventView::TranscriptionFailed(_) => Signal::TranscriptionFailed,
            EventView::Copied => Signal::Copied,
            EventView::CopyFailed(_) => Signal::CopyFailed,
            EventView::Injected => Signal::Injected,
            EventView::InjectFailed(_) => Signal::InjectFailed,
            EventView::HistoryRecorded { .. } => Signal::HistoryRecorded,
        }
    }

    /// The message that this event leaves in `last_error`: the stage that
    /// failed, then what the collaborator said. Empty for an event that
    /// reports no failure.
    pub open spec fn failure_message(self) -> Seq<char> {
        match self {
            EventView::CaptureStartFailed(m) => "Failed to start recording: "@ + m,
            EventView::CaptureStopFailed(m) => "Failed to stop recording: "@ + m,
            EventView::TranscriptionFailed(m) => "Transcription failed: "@ + m,
            EventView::CopyFailed(m) => "Failed to copy to clipboard: "@ + m,
            EventView::InjectFailed(m) => "Failed to inject text: "@ + m,
            _ => Seq::empty(),
        }
    }
}

/// What the caller of the machine has to do next.
#[derive(Debug, PartialEq, Eq)]
pub enum Action {
    /// Nothing: the machine is at rest or the capture runs.
    Nothing,
    /// Open the input stream.
    StartCapture { job_id: u64 },
    /// Close the input stream and write what was captured to `output_path`.
    StopCapture { job_id: u64, output_path: String },
    /// Hand the file to the transcription backend.
    Transcribe { job_id: u64, audio_path: String, language: String },
    /// Put the text on the clipboard.
    CopyToClipboard { job_id: u64, text: String },
    /// Inject the text into the focused application.
    InjectText { job_id: u64, text: String },
    /// Record the text in the history.
    RecordHistory { job_id: u64, text: String, audio_path: String },
}

/// The mathematical value of an `Action`.
pub enum ActionView {
    Nothing,
    StartCapture { job_id: u64 },
    StopCapture { job_id: u64, output_path: Seq<char> },
    Transcribe { job_id: u64, audio_path: Seq<char>, language: Seq<char> },
    CopyToClipboard { job_id: u64, text: Seq<char> },
    InjectText { job_id: u64, text: Seq<char> },
    RecordHistory { job_id: u64, text: Seq<char>, audio_path: Seq<char> },
}

impl View for Action {
    type V = ActionView;

    open spec fn view(&self) -> ActionView {
        match *self {
            Action::Nothing => ActionView::Nothing,
            Action::StartCapture { job_id } => ActionView::StartCapture { job_id },
            Action::StopCapture { job_id, output_path } => ActionView::StopCapture {
                job_id,
                output_path: output_path@,
            },
            Action::Transcribe { job_id, audio_path, language } => ActionView::Transcribe {
                job_id,
                audio_path: audio_path@,
                language: language@,
            },
            Action::CopyToClipboard { job_id, text } => ActionView::CopyToClipboard {
                job_id,
                text: text@,
            },
            Action::InjectText { job_id, text } => ActionView::InjectText { job_id, text: text@ },
            Action::RecordHistory { job_id, text, audio_path } => ActionView::RecordHistory {
                job_id,
                text: text@,
                audio_path: audio_path@,
            },
        }
    }
}

/// The whole state of the machine.
pub struct MachineView {
    pub stage: Stage,
    pub job_id: u64,
    pub options: JobOptions,
    pub next_job_id: u64,
    pub defaults: BehaviorOptions,
    /// What observers see.
    pub status: StatusView,
    /// The audio file of the job in flight, once the capture was written.
    pub audio_path: Seq<char>,
    /// The text of the job in flight, once it was transcribed.
    pub text: Seq<char>,
    /// The language hint that goes to the backend.
    pub language: Seq<char>,
    /// The directory that takes the audio files.
    pub temp_dir: Seq<char>,
}

/// The identifier of an optional job.
pub open spec fn job_id_of(job: Option<CompletedJobView>) -> Option<u64> {
    match job {
        Some(j) => Some(j.job_id),
        None => None,
    }
}

/// Eight bands at zero.
pub open spec fn silent_bands() -> Seq<u16> {
    Seq::new(NUM_BANDS as nat, |i: int| 0u16)
}

/// The path of the audio file of job `job_id` under `temp_dir`.
pub open spec fn audio_file(temp_dir: Seq<char>, job_id: u64) -> Seq<char> {
    temp_dir + "/wisprarch_"@ + decimal(job_id as nat) + ".wav"@
}

impl MachineView {
    /// The control state.
    pub open spec fn model(self) -> Model {
        Model {
            stage: self.stage,
            phase: self.status.phase,
            job_id: self.job_id,
            options: self.options,
            current_job_id: self.status.current_job_id,
            last_completed: job_id_of(self.status.last_completed_job),
            next_job_id: self.next_job_id,
            defaults: self.defaults,
        }
    }

    /// The state of a machine that has done nothing yet and gives its first
    /// job the identifier `first_job_id`, or one if that is zero.
    pub open spec fn initial_from(
        defaults: BehaviorOptions,
        language: Seq<char>,
        temp_dir: Seq<char>,
        first_job_id: u64,
    ) -> MachineView {
        MachineView {
            stage: Stage::AtRest,
            job_id: 0,
            options: defaults.spec_job_options(),
            next_job_id: if first_job_id == 0 {
                1
            } else {
                first_job_id
            },
            defaults,
            status: StatusView::initial(),
            audio_path: Seq::empty(),
            text: Seq::empty(),
            language,
            temp_dir,
        }
    }

    /// The state of a machine that has done nothing yet.
    pub open spec fn initial(
        defaults: BehaviorOptions,
        language: Seq<char>,
        temp_dir: Seq<char>,
    ) -> MachineView {
        Self::initial_from(defaults, language, temp_dir, 1)
    }

    /// Whether this is a state that the machine can be in: the control state
    /// is one, the levels are in range and zero unless the capture runs, and
    /// an error message is shown in phase `Error` and in no other.
    pub open spec fn wf(self) -> bool {
        &&& model_wf(self.model())
        &&& self.status.levels_in_range()
        &&& self.stage != Stage::Recording ==> self.status.levels_zero()
        &&& (self.status.phase == RecordingPhase::Error) == (self.status.last_error is Some)
        &&& self.status.last_error matches Some(message) ==> message.len() > 0
    }

    /// The state after a failure with message `message`: at rest in phase
    /// `Error`, the job given up, the last completed job kept.
    pub open spec fn failed(self, message: Seq<char>) -> MachineView {
        MachineView {
            stage: Stage::AtRest,
            status: StatusView {
                phase: RecordingPhase::Error,
                current_job_id: None,
                last_error: Some(message),
                audio_level: 0,
                frequency_bands: silent_bands(),
                ..self.status
            },
            ..self
        }
    }

    /// The state after `event`. An event that is not accepted leaves the
    /// state as it is.
    pub open spec fn step(self, event: EventView) -> MachineView {
        if !accepts(self.model(), event.signal()) {
            self
        } else {
            match event {
                EventView::Toggle(given) => if self.stage == Stage::AtRest {
                    MachineView {
                        stage: Stage::Starting,
                        job_id: self.next_job_id,
                        options: effective_options(self.defaults, given),
                        next_job_id: (self.next_job_id + 1) as u64,
                        ..self
                    }
                } else {
                    MachineView {
                        stage: Stage::Stopping,
                        status: StatusView {
                            phase: RecordingPhase::Processing,
                            audio_level: 0,
                            frequency_bands: silent_bands(),
                            ..self.status
                        },
                        ..self
                    }
                },
                EventView::CaptureStarted => MachineView {
                    stage: Stage::Recording,
                    status: StatusView {
                        phase: RecordingPhase::Recording,
                        current_job_id: Some(self.job_id),
                        last_error: None,
                        ..self.status
                    },
                    ..self
                },
                EventView::CaptureStopped(path) => MachineView {
                    stage: Stage::Transcribing,
                    audio_path: path,
                    ..self
                },
                EventView::Transcribed(text) => MachineView {
                    stage: after_text(self.options),
                    text,
                    ..self
                },
                EventView::Copied => MachineView { stage: after_copy(self.options), ..self },
                EventView::Injected => MachineView { stage: Stage::Archiving, ..self },
                EventView::HistoryRecorded { history_id, created_at } => MachineView {
                    stage: Stage::AtRest,
                    status: StatusView {
                        phase: RecordingPhase::Idle,
                        current_job_id: None,
                        last_completed_job: Some(
                            CompletedJobView {
                                job_id: self.job_id,
                                history_id,
                                text: self.text,
                                created_at,
                            },
                        ),
                        last_error: None,
                        ..self.status
                    },
                    ..self
                },
                _ => self.failed(event.failure_message()),
            }
        }
    }

    /// The action that is owed in this state.
    pub open spec fn owed(self) -> ActionView {
        match self.stage {
            Stage::AtRest | Stage::Recording => ActionView::Nothing,
            Stage::Starting => ActionView::StartCapture { job_id: self.job_id },
            Stage::Stopping => ActionView::StopCapture {
                job_id: self.job_id,
                output_path: audio_file(self.temp_dir, self.job_id),
            },
            Stage::Transcribing => ActionView::Transcribe {
                job_id: self.job_id,
                audio_path: self.audio_path,
                language: self.language,
            },
            Stage::Copying => ActionView::CopyToClipboard { job_id: self.job_id, text: self.text },
            Stage::Injecting => ActionView::InjectText { job_id: self.job_id, text: self.text },
            Stage::Archiving => ActionView::RecordHistory {
                job_id: self.job_id,
                text: self.text,
                audio_path: self.audio_path,
            },
        }
    }

    /// The state in which the levels `level` and `bands` are shown, each cut
    /// off at `LEVEL_FULL`. Levels are shown only while the capture runs.
    pub open spec fn with_levels(self, level: u16, bands: Seq<u16>) -> MachineView {
        if self.stage == Stage::Recording {
            MachineView {
                status: StatusView {
                    audio_level: clamped(level),
                    frequency_bands: Seq::new(NUM_BANDS as nat, |i: int| clamped(bands[i])),
                    ..self.status
                },
                ..self
            }
        } else {
            self
        }
    }
}

/// A step of the whole state is a step of the control state.
pub proof fn lemma_step_refines_model(v: MachineView, event: EventView)
    ensures
        v.step(event).model() == model_next(v.model(), event.signal()),
{
}

/// A failure message is never empty.
pub proof fn lemma_failure_message_nonempty(event: EventView)
    requires
        is_failure(event.signal()),
    ensures
        event.failure_message().len() > 0,
{
    reveal_strlit("Failed to start recording: ");
    reveal_strlit("Failed to stop recording: ");
    reveal_strlit("Transcription failed: ");
    reveal_strlit("Failed to copy to clipboard: ");
    reveal_strlit("Failed to inject text: ");
}

/// Every step leaves the machine in a state it can be in.
pub proof fn lemma_step_keeps_wf(v: MachineView, event: EventView)
    requires
        v.wf(),
    ensures
        v.step(event).wf(),
{
    lemma_step_refines_model(v, event);
    law_step_keeps_wf(v.model(), event.signal());
    if is_failure(event.signal()) {
        lemma_failure_message_nonempty(event);
    }
}

/// The recording machine.
pub struct RecordingMachine {
    status: RecordingStatus,
    stage: Stage,
    job_id: u64,
    options: JobOptions,
    audio_path: String,
    text: String,
    next_job_id: u64,
    defaults: BehaviorOptions,
    language: String,
    temp_dir: String,
}

impl View for RecordingMachine {
    type V = MachineView;

    closed spec fn view(&self) -> MachineView {
        MachineView {
            stage: self.stage,
            job_id: self.job_id,
            options: self.options,
            next_job_id: self.next_job_id,
            defaults: self.defaults,
            status: self.status@,
            audio_path: self.audio_path@,
            text: self.text@,
            language: self.language@,
            temp_dir: self.temp_dir@,
        }
    }
}

impl RecordingMachine {
    /// Whether the machine is in a state it can be in.
    pub open spec fn wf(&self) -> bool {
        self@.wf()
    }

    /// A machine at rest in phase `Idle`, which has started no job yet.
    /// `defaults` are the options of a job that names none, `language` is the
    /// hint that goes to the backend, and the audio files go to `temp_dir`.
    pub fn new(defaults: BehaviorOptions, language: String, temp_dir: String) -> (r: Self)
        ensures
            r@ == MachineView::initial(defaults, language@, temp_dir@),
            r.wf(),
    {
        RecordingMachine::resuming(defaults, language, temp_dir, 1)
    }

    /// A machine like a new one, which goes on counting its jobs from
    /// `first_job_id`, or from one if that is zero.
    pub fn resuming(
        defaults: BehaviorOptions,
        language: String,
        temp_dir: String,
        first_job_id: u64,
    ) -> (r: Self)
        ensures
            r@ == MachineView::initial_from(defaults, language@, temp_dir@, first_job_id),
            r.wf(),
    {
        RecordingMachine {
            status: RecordingStatus::new(),
            stage: Stage::AtRest,
            job_id: 0,
            options: defaults.job_options(),
            audio_path: String::new(),
            text: String::new(),
            next_job_id: if first_job_id == 0 {
                1
            } else {
                first_job_id
            },
            defaults,
            language,
            temp_dir,
        }
    }

    /// A copy of what observers see.
    pub fn status(&self) -> (r: RecordingStatus)
        ensures
            r@ == self@.status,
    {
        self.status.clone()
    }

    /// The phase that observers see.
    pub fn phase(&self) -> (r: RecordingPhase)
        ensures
            r == self@.status.phase,
    {
        self.status.phase
    }

    /// Where the job in flight stands.
    pub fn stage(&self) -> (r: Stage)
        ensures
            r == self@.stage,
    {
        self.stage
    }

    /// Whether a toggle would be refused as a state conflict now.
    pub fn is_busy(&self) -> (r: bool)
        ensures
            r == (self@.stage != Stage::AtRest && self@.stage != Stage::Recording),
    {
        !(self.stage == Stage::AtRest || self.stage == Stage::Recording)
    }

    fn audio_file_path(&self) -> (r: String)
        ensures
            r@ == audio_file(self@.temp_dir, self@.job_id),
    {
        let number = to_decimal(self.job_id);
        self.temp_dir.clone().concat("/wisprarch_").concat(number.as_str()).concat(".wav")
    }

    fn owed_action(&self) -> (r: Action)
        ensures
            r@ == self@.owed(),
    {
        match self.stage {
            Stage::AtRest | Stage::Recording => Action::Nothing,
            Stage::Starting => Action::StartCapture { job_id: self.job_id },
            Stage::Stopping => Action::StopCapture {
                job_id: self.job_id,
                output_path: self.audio_file_path(),
            },
            Stage::Transcribing => Action::Transcribe {
                job_id: self.job_id,
                audio_path: self.audio_path.clone(),
                language: self.language.clone(),
            },
            Stage::Copying => Action::CopyToClipboard {
                job_id: self.job_id,
                text: self.text.clone(),
            },
            Stage::Injecting => Action::InjectText { job_id: self.job_id, text: self.text.clone() },
            Stage::Archiving => Action::RecordHistory {
                job_id: self.job_id,
                text: self.text.clone(),
                audio_path: self.audio_path.clone(),
            },
        }
    }

    fn silence(&mut self)
        ensures
            final(self)@ == (MachineView {
                status: StatusView {
                    audio_level: 0,
                    frequency_bands: silent_bands(),
                    ..old(self)@.status
                },
                ..old(self)@
            }),
    {
        self.status.audio_level = 0;
        self.status.frequency_bands = [0u16; NUM_BANDS];
        assert(self.status.frequency_bands@ =~= silent_bands());
    }

    fn fail(&mut self, label: &str, detail: &str)
        ensures
            final(self)@ == old(self)@.failed(label@ + detail@),
    {
        let message = label.to_owned().concat(detail);
        self.silence();
        self.stage = Stage::AtRest;
        self.status.phase = RecordingPhase::Error;
        self.status.current_job_id = None;
        self.status.last_error = Some(message);
    }

    /// Takes one event. An accepted event moves the machine on and returns
    /// the action that is owed next; any other event is refused and changes
    /// nothing.
    pub fn handle(&mut self, event: Event) -> (r: Result<Action, MachineError>)
        requires
            old(self).wf(),
        ensures
            final(self).wf(),
            final(self)@ == old(self)@.step(event@),
            final(self)@.model() == model_next(old(self)@.model(), event@.signal()),
            accepts(old(self)@.model(), event@.signal()) ==> (r matches Ok(action) && action@
                == final(self)@.owed()),
            !accepts(old(self)@.model(), event@.signal()) ==> r == Err::<Action, MachineError>(
                refusal(old(self)@.model(), event@.signal()),
            ),
    {
        proof {
            lemma_step_keeps_wf(self@, event@);
            lemma_step_refines_model(self@, event@);
        }
        match event {
            Event::Toggle(given) => {
                if self.stage == Stage::AtRest {
                    if self.next_job_id == u64::MAX {
                        return Err(MachineError::JobIdsExhausted);
                    }
                    self.stage = Stage::Starting;
                    self.job_id = self.next_job_id;
                    self.options =
                    match given {
                        Some(options) => options,
                        None => self.defaults.job_options(),
                    };
                    self.next_job_id = self.next_job_id + 1;
                } else if self.stage == Stage::Recording {
                    self.silence();
                    self.stage = Stage::Stopping;
                    self.status.phase = RecordingPhase::Processing;
                } else {
                    return Err(MachineError::StateConflict);
                }
            },
            Event::CaptureStarted => {
                if self.stage != Stage::Starting {
                    return Err(MachineError::UnexpectedEvent);
                }
                self.stage = Stage::Recording;
                self.status.phase = RecordingPhase::Recording;
                self.status.current_job_id = Some(self.job_id);
                self.status.last_error = None;
            },
            Event::CaptureStartFailed(detail) => {
                if self.stage != Stage::Starting {
                    return Err(MachineError::UnexpectedEvent);
                }
                self.fail("Failed to start recording: ", detail.as_str());
            },
            Event::CaptureStopped(path) => {
                if self.stage != Stage::Stopping {
                    return Err(MachineError::UnexpectedEvent);
                }
                self.stage = Stage::Transcribing;
                self.audio_path = path;
            },
            Event::CaptureStopFailed(detail) => {
                if self.stage != Stage::Stopping {
                    return Err(MachineError::UnexpectedEvent);
                }
                self.fail("Failed to stop recording: ", detail.as_str());
            },
            Event::Transcribed(text) => {
                if self.stage != Stage::Transcribing {
                    return Err(MachineError::UnexpectedEvent);
                }
                self.text = text;
                self.stage =
                if self.options.copy_to_clipboard {
                    Stage::Copying
                } else if self.options.auto_paste {
                    Stage::Injecting
                } else {
                    Stage::Archiving
                };
            },
            Event::TranscriptionFailed(detail) => {
                if self.stage != Stage::Transcribing {
                    return Err(MachineError::UnexpectedEvent);
                }
                self.fail("Transcription failed: ", detail.as_str());
            },
            Event::Copied => {
                if self.stage != Stage::Copying {
                    return Err(MachineError::UnexpectedEvent);
                }
                self.stage =
                if self.options.auto_paste {
                    Stage::Injecting
                } else {
                    Stage::Archiving
                };
            },
            Event::CopyFailed(detail) => {
                if self.stage != Stage::Copying {
                    return Err(MachineError::UnexpectedEvent);
                }
                self.fail("Failed to copy to clipboard: ", detail.as_str());
            },
            Event::Injected => {
                if self.stage != Stage::Injecting {
                    return Err(MachineError::UnexpectedEvent);
                }
                self.stage = Stage::Archiving;
            },
            Event::InjectFailed(detail) => {
                if self.stage != Stage::Injecting {
                    return Err(MachineError::UnexpectedEvent);
                }
                self.fail("Failed to inject text: ", detail.as_str());
            },
            Event::HistoryRecorded { history_id, created_at } => {
                if self.stage != Stage::Archiving {
                    return Err(MachineError::UnexpectedEvent);
                }
                self.stage = Stage::AtRest;
                self.status.phase = RecordingPhase::Idle;
                self.status.current_job_id = None;
                self.status.last_error = None;
                self.status.last_completed_job = Some(
                    CompletedJob {
                        job_id: self.job_id,
                        history_id,
                        text: self.text.clone(),
                        created_at,
                    },
                );
            },
        }
        Ok(self.owed_action())
    }

    /// A request to start or stop. At rest it starts a new job, with
    /// `options` or the defaults; while the capture runs it stops it; at any
    /// other time it is refused as a state conflict and changes nothing.
    pub fn toggle(&mut self, options: Option<JobOptions>) -> (r: Result<Action, MachineError>)
        requires
            old(self).wf(),
        ensures
            final(self).wf(),
            final(self)@ == old(self)@.step(EventView::Toggle(options)),
            accepts(old(self)@.model(), Signal::Toggle(options)) ==> (r matches Ok(action)
                && action@ == final(self)@.owed()),
            !accepts(old(self)@.model(), Signal::Toggle(options)) ==> r == Err::<
                Action,
                MachineError,
            >(refusal(old(self)@.model(), Signal::Toggle(options))),
    {
        self.handle(Event::Toggle(options))
    }

    /// Shows the levels `level` and `bands`, each cut off at `LEVEL_FULL`,
    /// if the capture runs. At any other time the levels stay at zero.
    pub fn observe_levels(&mut self, level: u16, bands: &[u16; NUM_BANDS])
        requires
            old(self).wf(),
        ensures
            final(self).wf(),
            final(self)@ == old(self)@.with_levels(level, bands@),
    {
        if self.stage == Stage::Recording {
            let mut shown = [0u16; NUM_BANDS];
            let mut i: usize = 0;
            while i < NUM_BANDS
                invariant
                    i <= NUM_BANDS,
                    forall|k: int| 0 <= k < i ==> shown@[k] == clamped(bands@[k]),
                decreases NUM_BANDS - i,
            {
                shown[i] = clamp(bands[i]);
                i += 1;
            }
            self.status.audio_level = clamp(level);
            self.status.frequency_bands = shown;
            assert(self.status.frequency_bands@ =~= Seq::new(
                NUM_BANDS as nat,
                |i: int| clamped(bands@[i]),
            ));
        }
    }
}

} // verus!
