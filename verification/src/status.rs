//! The published state of the recorder: phase, job identity and levels.
//!
//! Levels are fixed-point numbers in thousandths: `0` is silence and
//! `LEVEL_FULL` stands for `1.0`.

use vstd::prelude::*;

verus! {

/// Number of frequency bands in the visualisation.
pub const NUM_BANDS: usize = 8;

/// The fixed-point value that stands for a level of `1.0`.
pub const LEVEL_FULL: u16 = 1000;

/// Where the recorder stands. Exactly one value holds at any instant.
#[derive(Clone, Copy, Debug, PartialEq, Eq, Structural)]
pub enum RecordingPhase {
    Idle,
    Recording,
    Processing,
    Error,
}

/// The name under which `phase` is reported.
pub open spec fn phase_name(phase: RecordingPhase) -> Seq<char> {
    match phase {
        RecordingPhase::Idle => "idle"@,
        RecordingPhase::Recording => "recording"@,
        RecordingPhase::Processing => "processing"@,
        RecordingPhase::Error => "error"@,
    }
}

impl RecordingPhase {
    /// The name under which this phase is reported.
    pub fn as_str(&self) -> (r: &'static str)
        ensures
            r@ == phase_name(*self),
    {
        match self {
            RecordingPhase::Idle => "idle",
            RecordingPhase::Recording => "recording",
            RecordingPhase::Processing => "processing",
            RecordingPhase::Error => "error",
        }
    }

    /// Whether no job is in flight in this phase.
    pub open spec fn at_rest(self) -> bool {
        self == RecordingPhase::Idle || self == RecordingPhase::Error
    }
}

/// What to do with the text of one job.
#[derive(Clone, Copy, Debug, PartialEq, Eq, Structural)]
pub struct JobOptions {
    pub copy_to_clipboard: bool,
    pub auto_paste: bool,
}

/// The defaults a job gets when a toggle names no options.
#[derive(Clone, Copy, Debug, PartialEq, Eq, Structural)]
pub struct BehaviorOptions {
    pub copy_to_clipboard: bool,
    pub auto_paste: bool,
}

impl BehaviorOptions {
    /// The options of a job that was started without options of its own.
    pub open spec fn spec_job_options(self) -> JobOptions {
        JobOptions { copy_to_clipboard: self.copy_to_clipboard, auto_paste: self.auto_paste }
    }

    /// The options of a job that was started without options of its own.
    pub fn job_options(&self) -> (r: JobOptions)
        ensures
            r == self.spec_job_options(),
    {
        JobOptions { copy_to_clipboard: self.copy_to_clipboard, auto_paste: self.auto_paste }
    }
}

impl Default for BehaviorOptions {
    fn default() -> (r: Self)
        ensures
            r.copy_to_clipboard,
            r.auto_paste,
    {
        BehaviorOptions { copy_to_clipboard: true, auto_paste: true }
    }
}

/// The options that `given` stands for under `defaults`.
pub open spec fn effective_options(defaults: BehaviorOptions, given: Option<JobOptions>)
    -> JobOptions {
    match given {
        Some(options) => options,
        None => defaults.spec_job_options(),
    }
}

/// A job that ran to the end: its text was transcribed and delivered.
#[derive(Debug, PartialEq, Eq)]
pub struct CompletedJob {
    pub job_id: u64,
    /// Identifier in the history, absent when the record could not be stored.
    pub history_id: Option<i64>,
    pub text: String,
    pub created_at: String,
}

/// The mathematical value of a `CompletedJob`.
pub struct CompletedJobView {
    pub job_id: u64,
    pub history_id: Option<i64>,
    pub text: Seq<char>,
    pub created_at: Seq<char>,
}

impl View for CompletedJob {
    type V = CompletedJobView;

    open spec fn view(&self) -> CompletedJobView {
        CompletedJobView {
            job_id: self.job_id,
            history_id: self.history_id,
            text: self.text@,
            created_at: self.created_at@,
        }
    }
}

impl Clone for CompletedJob {
    fn clone(&self) -> (r: Self)
        ensures
            r == *self,
    {
        CompletedJob {
            job_id: self.job_id,
            history_id: self.history_id,
            text: self.text.clone(),
            created_at: self.created_at.clone(),
        }
    }
}

/// One snapshot of the recorder. A snapshot is never changed in place: each
/// update replaces the whole value.
#[derive(Debug, PartialEq, Eq)]
pub struct RecordingStatus {
    pub phase: RecordingPhase,
    pub current_job_id: Option<u64>,
    pub last_completed_job: Option<CompletedJob>,
    pub last_error: Option<String>,
    pub audio_level: u16,
    pub frequency_bands: [u16; NUM_BANDS],
}

/// The mathematical value of a `RecordingStatus`.
pub struct StatusView {
    pub phase: RecordingPhase,
    pub current_job_id: Option<u64>,
    pub last_completed_job: Option<CompletedJobView>,
    pub last_error: Option<Seq<char>>,
    pub audio_level: u16,
    pub frequency_bands: Seq<u16>,
}

/// The view of an optional job.
pub open spec fn job_view(job: Option<CompletedJob>) -> Option<CompletedJobView> {
    match job {
        Some(j) => Some(j@),
        None => None,
    }
}

/// The view of an optional text.
pub open spec fn text_view(text: Option<String>) -> Option<Seq<char>> {
    match text {
        Some(t) => Some(t@),
        None => None,
    }
}

/// Whether every level in `bands` is zero.
pub open spec fn all_zero(bands: Seq<u16>) -> bool {
    forall|i: int| 0 <= i < bands.len() ==> bands[i] == 0
}

/// Whether every level in `bands` is at most `LEVEL_FULL`.
pub open spec fn all_in_range(bands: Seq<u16>) -> bool {
    forall|i: int| 0 <= i < bands.len() ==> bands[i] <= LEVEL_FULL
}

impl View for RecordingStatus {
    type V = StatusView;

    open spec fn view(&self) -> StatusView {
        StatusView {
            phase: self.phase,
            current_job_id: self.current_job_id,
            last_completed_job: job_view(self.last_completed_job),
            last_error: text_view(self.last_error),
            audio_level: self.audio_level,
            frequency_bands: self.frequency_bands@,
        }
    }
}

impl StatusView {
    /// The snapshot of a recorder that has done nothing yet.
    pub open spec fn initial() -> StatusView {
        StatusView {
            phase: RecordingPhase::Idle,
            current_job_id: None,
            last_completed_job: None,
            last_error: None,
            audio_level: 0,
            frequency_bands: Seq::new(NUM_BANDS as nat, |i: int| 0u16),
        }
    }

    /// Whether both the level and the bands lie between `0` and `LEVEL_FULL`.
    pub open spec fn levels_in_range(self) -> bool {
        self.audio_level <= LEVEL_FULL && self.frequency_bands.len() == NUM_BANDS && all_in_range(
            self.frequency_bands,
        )
    }

    /// Whether the level and all bands are zero.
    pub open spec fn levels_zero(self) -> bool {
        self.audio_level == 0 && all_zero(self.frequency_bands)
    }
}

impl Clone for RecordingStatus {
    fn clone(&self) -> (r: Self)
        ensures
            r == *self,
    {
        let last_completed_job = match &self.last_completed_job {
            Some(job) => Some(job.clone()),
            None => None,
        };
        let last_error = match &self.last_error {
            Some(message) => Some(message.clone()),
            None => None,
        };
        RecordingStatus {
            phase: self.phase,
            current_job_id: self.current_job_id,
            last_completed_job,
            last_error,
            audio_level: self.audio_level,
            frequency_bands: self.frequency_bands,
        }
    }
}

impl RecordingStatus {
    /// The snapshot of a recorder that has done nothing yet.
    pub fn new() -> (r: Self)
        ensures
            r@ == StatusView::initial(),
    {
        let r = RecordingStatus {
            phase: RecordingPhase::Idle,
            current_job_id: None,
            last_completed_job: None,
            last_error: None,
            audio_level: 0,
            frequency_bands: [0u16; NUM_BANDS],
        };
        assert(r.frequency_bands@ =~= Seq::new(NUM_BANDS as nat, |i: int| 0u16));
        r
    }

    /// Whether a recording is being captured.
    pub fn is_recording(&self) -> (r: bool)
        ensures
            r == (self.phase == RecordingPhase::Recording),
    {
        self.phase == RecordingPhase::Recording
    }
}

/// The place where the latest snapshot is kept for observers. Readers get a
/// copy of the whole snapshot, never a part of one.
pub struct RecordingStatusHandle {
    current: RecordingStatus,
}

impl View for RecordingStatusHandle {
    type V = StatusView;

    closed spec fn view(&self) -> StatusView {
        self.current@
    }
}

impl RecordingStatusHandle {
    /// A handle that holds the initial snapshot.
    pub fn new() -> (r: Self)
        ensures
            r@ == StatusView::initial(),
    {
        RecordingStatusHandle { current: RecordingStatus::new() }
    }

    /// The latest snapshot.
    pub fn get(&self) -> (r: RecordingStatus)
        ensures
            r@ == self@,
    {
        self.current.clone()
    }

    /// Replaces the snapshot by `status`.
    pub fn publish(&mut self, status: RecordingStatus)
        ensures
            final(self)@ == status@,
    {
        self.current = status;
    }
}

} // verus!
