//! What the front ends say: requests that come in, and the answers that go
//! out to the status bar.

use crate::status::{JobOptions, RecordingPhase, RecordingStatus, StatusView, NUM_BANDS};
use crate::status::phase_name;
use crate::text_io::{method_name, parsed_method, InjectionMethod};
use vstd::prelude::*;
use vstd::string::*;

verus! {

/// The body of a toggle request. Both fields may be left out.
#[derive(Debug, Clone, Copy, PartialEq, Eq, Structural)]
pub struct ToggleRequest {
    /// Whether to copy the transcription to the clipboard.
    pub copy_to_clipboard: Option<bool>,
    /// Whether to inject the text into the focused application.
    pub auto_paste: Option<bool>,
}

/// A command of a front end to the recorder.
#[derive(Debug, Clone, Copy, PartialEq, Eq, Structural)]
pub enum ApiCommand {
    /// Toggle the recording, with the options of the job if the request
    /// names any.
    ToggleRecording(Option<JobOptions>),
}

/// `value`, or `true` where there is none.
pub open spec fn or_true(value: Option<bool>) -> bool {
    match value {
        Some(b) => b,
        None => true,
    }
}

impl ToggleRequest {
    /// The options that this request names: none if it names no field, and
    /// else its fields, each `true` where it is left out.
    pub open spec fn spec_job_options(self) -> Option<JobOptions> {
        if self.copy_to_clipboard is Some || self.auto_paste is Some {
            Some(
                JobOptions {
                    copy_to_clipboard: or_true(self.copy_to_clipboard),
                    auto_paste: or_true(self.auto_paste),
                },
            )
        } else {
            None
        }
    }

    /// The options that this request names.
    pub fn job_options(&self) -> (r: Option<JobOptions>)
        ensures
            r == self.spec_job_options(),
    {
        if self.copy_to_clipboard.is_some() || self.auto_paste.is_some() {
            Some(
                JobOptions {
                    copy_to_clipboard: match self.copy_to_clipboard {
                        Some(b) => b,
                        None => true,
                    },
                    auto_paste: match self.auto_paste {
                        Some(b) => b,
                        None => true,
                    },
                },
            )
        } else {
            None
        }
    }
}

impl Default for ToggleRequest {
    fn default() -> (r: Self)
        ensures
            r.copy_to_clipboard is None,
            r.auto_paste is None,
    {
        ToggleRequest { copy_to_clipboard: None, auto_paste: None }
    }
}

/// The command for a toggle request with body `body`, if it has one.
pub fn toggle_command(body: Option<ToggleRequest>) -> (r: ApiCommand)
    ensures
        r == ApiCommand::ToggleRecording(
            match body {
                Some(request) => request.spec_job_options(),
                None => None,
            },
        ),
{
    ApiCommand::ToggleRecording(
        match body {
            Some(request) => request.job_options(),
            None => None,
        },
    )
}

/// The message of the answer to a toggle.
pub fn toggle_message(phase: RecordingPhase) -> (r: String)
    ensures
        r@ == "Recording "@ + phase_name(phase),
{
    "Recording ".to_owned().concat(phase.as_str())
}

/// The body of a request to change the input method.
#[derive(Debug, PartialEq, Eq)]
pub struct SetInputMethodRequest {
    pub method: String,
}

impl SetInputMethodRequest {
    /// The method that this request names, or the message that says why it
    /// names none.
    pub fn parse(&self) -> (r: Result<InjectionMethod, String>)
        ensures
            match parsed_method(self.method@) {
                Some(method) => r == Ok::<InjectionMethod, String>(method),
                None => r matches Err(message) && message@ == "Invalid method '"@ + self.method@
                    + "'. Use: clipboard, wtype, or ydotool"@,
            },
    {
        match InjectionMethod::parse(self.method.as_str()) {
            Some(method) => Ok(method),
            None => Err(
                "Invalid method '".to_owned().concat(self.method.as_str()).concat(
                    "'. Use: clipboard, wtype, or ydotool",
                ),
            ),
        }
    }
}

/// The message of the answer to a change of the input method.
pub fn switched_message(method: InjectionMethod) -> (r: String)
    ensures
        r@ == "Switched to "@ + method_name(method) + " mode"@,
{
    "Switched to ".to_owned().concat(method.as_str()).concat(" mode")
}

/// The height of the bar for `level`, from 0 to 3: a quarter of the full
/// level for each step.
pub open spec fn bar_height(level: u16) -> int {
    if level * 4 / 1000 > 3 {
        3
    } else {
        level * 4 / 1000
    }
}

/// The braille character of a bar of height `height`.
pub open spec fn bar_char(height: int) -> char {
    if height <= 0 {
        '⡀'
    } else if height == 1 {
        '⡄'
    } else if height == 2 {
        '⡆'
    } else {
        '⡇'
    }
}

/// One bar for each band.
pub open spec fn visualizer(bands: Seq<u16>) -> Seq<char> {
    Seq::new(bands.len(), |i: int| bar_char(bar_height(bands[i])))
}

fn bar_for(level: u16) -> (r: &'static str)
    ensures
        r@ == seq![bar_char(bar_height(level))],
{
    proof {
        reveal_strlit("⡀");
        reveal_strlit("⡄");
        reveal_strlit("⡆");
        reveal_strlit("⡇");
    }
    let scaled: u32 = (level as u32) * 4 / 1000;
    let r = if scaled == 0 {
        "⡀"
    } else if scaled == 1 {
        "⡄"
    } else if scaled == 2 {
        "⡆"
    } else {
        "⡇"
    };
    assert(r@ =~= seq![bar_char(bar_height(level))]);
    r
}

/// A compact picture of the bands: one braille bar for each.
pub fn generate_visualizer(bands: &[u16; NUM_BANDS]) -> (r: String)
    ensures
        r@ == visualizer(bands@),
{
    let mut picture = String::new();
    let mut i: usize = 0;
    while i < NUM_BANDS
        invariant
            i <= NUM_BANDS,
            picture@ == visualizer(bands@).take(i as int),
        decreases NUM_BANDS - i,
    {
        picture.append(bar_for(bands[i]));
        assert(picture@ =~= visualizer(bands@).take(i + 1));
        i += 1;
    }
    assert(visualizer(bands@).take(NUM_BANDS as int) =~= visualizer(bands@));
    picture
}

/// What the status bar shows.
#[derive(Debug, PartialEq, Eq)]
pub struct WaybarResponse {
    pub text: String,
    pub class: String,
    pub tooltip: String,
}

/// The mathematical value of a `WaybarResponse`.
pub struct WaybarView {
    pub text: Seq<char>,
    pub class: Seq<char>,
    pub tooltip: Seq<char>,
}

impl View for WaybarResponse {
    type V = WaybarView;

    open spec fn view(&self) -> WaybarView {
        WaybarView { text: self.text@, class: self.class@, tooltip: self.tooltip@ }
    }
}

/// What the status bar shows for `status`: nothing while idle, the bands
/// while recording, an hourglass while processing, and a cross with the
/// error as tooltip after a failure.
pub open spec fn waybar_view(status: StatusView) -> WaybarView {
    match status.phase {
        RecordingPhase::Idle => WaybarView {
            text: Seq::empty(),
            class: "wisprarch-idle"@,
            tooltip: "Press Super+R to record"@,
        },
        RecordingPhase::Recording => WaybarView {
            text: visualizer(status.frequency_bands),
            class: "wisprarch-recording"@,
            tooltip: "Recording... Press Super+R to stop"@,
        },
        RecordingPhase::Processing => WaybarView {
            text: "⏳"@,
            class: "wisprarch-processing"@,
            tooltip: "Processing..."@,
        },
        RecordingPhase::Error => WaybarView {
            text: "❌"@,
            class: "wisprarch-error"@,
            tooltip: match status.last_error {
                Some(message) => message,
                None => "Error"@,
            },
        },
    }
}

/// What the status bar shows for `status`.
pub fn generate_waybar_response(status: &RecordingStatus) -> (r: WaybarResponse)
    ensures
        r@ == waybar_view(status@),
{
    match status.phase {
        RecordingPhase::Idle => WaybarResponse {
            text: String::new(),
            class: "wisprarch-idle".to_owned(),
            tooltip: "Press Super+R to record".to_owned(),
        },
        RecordingPhase::Recording => WaybarResponse {
            text: generate_visualizer(&status.frequency_bands),
            class: "wisprarch-recording".to_owned(),
            tooltip: "Recording... Press Super+R to stop".to_owned(),
        },
        RecordingPhase::Processing => WaybarResponse {
            text: "⏳".to_owned(),
            class: "wisprarch-processing".to_owned(),
            tooltip: "Processing...".to_owned(),
        },
        RecordingPhase::Error => WaybarResponse {
            text: "❌".to_owned(),
            class: "wisprarch-error".to_owned(),
            tooltip: match &status.last_error {
                Some(message) => message.clone(),
                None => "Error".to_owned(),
            },
        },
    }
}

/// The texts of the status bar that the configuration sets.
#[derive(Debug, PartialEq, Eq)]
pub struct WaybarConfig {
    pub idle_text: String,
    pub recording_text: String,
    pub idle_tooltip: String,
    pub recording_tooltip: String,
}

/// What the status bar shows for `status` with the texts of `config`: the
/// configured text and tooltip while idle and while recording, and fixed
/// icons while processing and after a failure.
pub open spec fn configured_view(status: StatusView, config: WaybarConfig) -> WaybarView {
    match status.phase {
        RecordingPhase::Idle => WaybarView {
            text: config.idle_text@,
            class: "audetic-idle"@,
            tooltip: config.idle_tooltip@,
        },
        RecordingPhase::Recording => WaybarView {
            text: config.recording_text@,
            class: "audetic-recording"@,
            tooltip: config.recording_tooltip@,
        },
        RecordingPhase::Processing => WaybarView {
            text: "󰦖"@,
            class: "audetic-processing"@,
            tooltip: "Processing transcription"@,
        },
        RecordingPhase::Error => WaybarView {
            text: ""@,
            class: "audetic-error"@,
            tooltip: match status.last_error {
                Some(message) => message,
                None => "Recording error"@,
            },
        },
    }
}

/// What the status bar shows for `status` with the texts of `config`.
pub fn generate_configured_response(status: &RecordingStatus, config: &WaybarConfig) -> (r:
    WaybarResponse)
    ensures
        r@ == configured_view(status@, *config),
{
    match status.phase {
        RecordingPhase::Idle => WaybarResponse {
            text: config.idle_text.clone(),
            class: "audetic-idle".to_owned(),
            tooltip: config.idle_tooltip.clone(),
        },
        RecordingPhase::Recording => WaybarResponse {
            text: config.recording_text.clone(),
            class: "audetic-recording".to_owned(),
            tooltip: config.recording_tooltip.clone(),
        },
        RecordingPhase::Processing => WaybarResponse {
            text: "󰦖".to_owned(),
            class: "audetic-processing".to_owned(),
            tooltip: "Processing transcription".to_owned(),
        },
        RecordingPhase::Error => WaybarResponse {
            text: "".to_owned(),
            class: "audetic-error".to_owned(),
            tooltip: match &status.last_error {
                Some(message) => message.clone(),
                None => "Recording error".to_owned(),
            },
        },
    }
}

} // verus!
