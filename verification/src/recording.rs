//! The recording orchestrator: one control toggles between recording and
//! transcribing, another cancels a recording. Each signal is answered with
//! the list of things to do, in their order.

use vstd::prelude::*;
use crate::audio::{downmix_spec, is_floor_sqrt, is_silent, is_silent_spec, mean_square, FULL_SCALE, WAVEFORM_WINDOW};
use crate::capture::{AudioError, AudioRecorder, RecorderState, SampleEncoding};
use crate::config::AppConfig;
use crate::models::{get_model_path_for_config, model_path_spec};
use crate::paths::path_exists;
use crate::resample::{can_resample, resample, resample_fits, resample_spec};
use crate::stt::{is_load_plan, is_load_result, is_transcript, kind_of_name, request_spec, BackendOutcome, EngineKind, LoadRequest, RequestView, SttEngine, SttError, TranscribeRequest, ENGINE_SAMPLE_RATE};
use crate::text::{join2, join3, str_eq};

verus! {

/// Milliseconds to wait after restoring focus, before pasting.
pub const FOCUS_SETTLE_MS: u32 = 200;

/// Where the orchestrator stands.
#[derive(Debug, Clone, Copy, PartialEq, Eq)]
pub enum RecordingState {
    /// Nothing is going on.
    Idle,
    /// A capture session is active.
    Recording,
    /// A recording is with the transcription engine.
    Transcribing,
}

/// What went wrong between the signal and the pasted text.
#[derive(Debug, Clone, PartialEq, Eq)]
pub enum PipelineError {
    /// The session could not start; holds the recorder's words.
    StartFailed(String),
    /// The session ended with nothing to use; holds the recorder's words.
    RecordingFailed(String),
    /// The recording holds no sound; holds the name of the configured device.
    SilenceDetected(String),
    /// No model is loaded.
    NotLoaded,
    /// The recognizer reported an error; holds its words.
    TranscriptionFailed(String),
    /// The recognizer faulted and the fault was caught.
    TranscriptionCrashed,
    /// The text could not be pasted; holds the collaborator's words.
    PasteFailed(String),
}

/// What an error is, for contracts.
pub enum PipelineErrorView {
    StartFailed(Seq<char>),
    RecordingFailed(Seq<char>),
    SilenceDetected(Seq<char>),
    NotLoaded,
    TranscriptionFailed(Seq<char>),
    TranscriptionCrashed,
    PasteFailed(Seq<char>),
}

impl View for PipelineError {
    type V = PipelineErrorView;

    open spec fn view(&self) -> PipelineErrorView {
        match self {
            PipelineError::StartFailed(reason) => PipelineErrorView::StartFailed(reason@),
            PipelineError::RecordingFailed(reason) => PipelineErrorView::RecordingFailed(reason@),
            PipelineError::SilenceDetected(device) => PipelineErrorView::SilenceDetected(device@),
            PipelineError::NotLoaded => PipelineErrorView::NotLoaded,
            PipelineError::TranscriptionFailed(reason) => PipelineErrorView::TranscriptionFailed(
                reason@,
            ),
            PipelineError::TranscriptionCrashed => PipelineErrorView::TranscriptionCrashed,
            PipelineError::PasteFailed(reason) => PipelineErrorView::PasteFailed(reason@),
        }
    }
}

/// One thing to do in answer to a signal.
#[derive(Debug, Clone, PartialEq, Eq)]
pub enum Action {
    /// Show the capture-feedback surface.
    ShowOverlay,
    /// Hide the capture-feedback surface.
    HideOverlay,
    /// Open the input stream of the named device and deliver its blocks.
    OpenCapture(String),
    /// Register the cancel trigger.
    RegisterCancel,
    /// Unregister the cancel trigger.
    UnregisterCancel,
    /// Announce that the session has stopped.
    NotifyStopped,
    /// Tell the user what went wrong.
    ReportError(PipelineError),
    /// Run the native recognizer and report its answer back.
    Transcribe(TranscribeRequest),
    /// Bring the process with this identifier to the foreground.
    RestoreFocus(i32),
    /// Wait this many milliseconds.
    Settle(u32),
    /// Hand the text to the paste collaborator and report the result back.
    Paste(String),
}

/// What an action is, for contracts.
pub enum ActionView {
    ShowOverlay,
    HideOverlay,
    OpenCapture(Seq<char>),
    RegisterCancel,
    UnregisterCancel,
    NotifyStopped,
    ReportError(PipelineErrorView),
    Transcribe(RequestView),
    RestoreFocus(i32),
    Settle(u32),
    Paste(Seq<char>),
}

impl View for Action {
    type V = ActionView;

    open spec fn view(&self) -> ActionView {
        match self {
            Action::ShowOverlay => ActionView::ShowOverlay,
            Action::HideOverlay => ActionView::HideOverlay,
            Action::OpenCapture(device) => ActionView::OpenCapture(device@),
            Action::RegisterCancel => ActionView::RegisterCancel,
            Action::UnregisterCancel => ActionView::UnregisterCancel,
            Action::NotifyStopped => ActionView::NotifyStopped,
            Action::ReportError(error) => ActionView::ReportError(error@),
            Action::Transcribe(request) => ActionView::Transcribe(request@),
            Action::RestoreFocus(pid) => ActionView::RestoreFocus(*pid),
            Action::Settle(ms) => ActionView::Settle(*ms),
            Action::Paste(text) => ActionView::Paste(text@),
        }
    }
}

/// The actions of a list, each by its view.
pub open spec fn effects(actions: Seq<Action>) -> Seq<ActionView> {
    actions.map_values(|action: Action| action@)
}

/// The text of an error, as the user is told.
pub open spec fn message_of(error: PipelineErrorView) -> Seq<char> {
    match error {
        PipelineErrorView::StartFailed(reason) => "Cannot start recording: "@ + reason,
        PipelineErrorView::RecordingFailed(reason) => "Recording failed: "@ + reason,
        PipelineErrorView::SilenceDetected(device) => "No audio detected (device: \""@ + device
            + "\"). Check that the device is connected, or grant microphone access in System Settings > Privacy & Security > Microphone"@,
        PipelineErrorView::NotLoaded =>
            "Transcription failed: STT engine not loaded \u{2014} download a model in Settings"@,
        PipelineErrorView::TranscriptionFailed(reason) => "Transcription failed: "@ + reason,
        PipelineErrorView::TranscriptionCrashed =>
            "Transcription crashed \u{2014} try a different STT engine or model"@,
        PipelineErrorView::PasteFailed(reason) => "Paste failed: "@ + reason
            + ". On macOS, enable Accessibility in System Settings > Privacy & Security > Accessibility"@,
    }
}

impl PipelineError {
    /// The text of this error, as the user is told.
    pub fn message(&self) -> (text: String)
        ensures
            text@ == message_of(self@),
    {
        match self {
            PipelineError::StartFailed(reason) => join2(
                "Cannot start recording: ",
                reason.as_str(),
            ),
            PipelineError::RecordingFailed(reason) => join2("Recording failed: ", reason.as_str()),
            PipelineError::SilenceDetected(device) => join3(
                "No audio detected (device: \"",
                device.as_str(),
                "\"). Check that the device is connected, or grant microphone access in System Settings > Privacy & Security > Microphone",
            ),
            PipelineError::NotLoaded => String::from_str(
                "Transcription failed: STT engine not loaded \u{2014} download a model in Settings",
            ),
            PipelineError::TranscriptionFailed(reason) => join2(
                "Transcription failed: ",
                reason.as_str(),
            ),
            PipelineError::TranscriptionCrashed => String::from_str(
                "Transcription crashed \u{2014} try a different STT engine or model",
            ),
            PipelineError::PasteFailed(reason) => join3(
                "Paste failed: ",
                reason.as_str(),
                ". On macOS, enable Accessibility in System Settings > Privacy & Security > Accessibility",
            ),
        }
    }
}

/// The three things done whenever a session is stopped.
pub open spec fn stop_effects() -> Seq<ActionView> {
    seq![ActionView::NotifyStopped, ActionView::UnregisterCancel, ActionView::HideOverlay]
}

/// What follows the stop of a session that captured `samples` at `rate`:
/// whether a transcription begins, and the actions after the three of
/// `stop_effects`.
pub open spec fn after_stop(
    samples: Seq<i16>,
    rate: u32,
    device: Seq<char>,
    language: Seq<char>,
    kind: EngineKind,
    loaded: bool,
) -> (bool, Seq<ActionView>) {
    if samples.len() == 0 {
        (
            false,
            seq![
                ActionView::ReportError(
                    PipelineErrorView::RecordingFailed(AudioError::EmptyRecording.message_spec()),
                ),
            ],
        )
    } else if is_silent_spec(samples) {
        (false, seq![ActionView::ReportError(PipelineErrorView::SilenceDetected(device))])
    } else if !loaded {
        (false, seq![ActionView::ReportError(PipelineErrorView::NotLoaded)])
    } else {
        (
            true,
            seq![
                ActionView::Transcribe(
                    request_spec(
                        kind,
                        resample_spec(samples, rate as int, ENGINE_SAMPLE_RATE as int),
                        language,
                    ),
                ),
            ],
        )
    }
}

/// What follows a transcript: nothing for an empty one; otherwise focus goes
/// back to a valid target, a pause lets it settle, and the text is pasted.
pub open spec fn after_transcript(text: Seq<char>, focus: i32) -> Seq<ActionView> {
    if text.len() == 0 {
        seq![]
    } else if focus > 0 {
        seq![
            ActionView::RestoreFocus(focus),
            ActionView::Settle(FOCUS_SETTLE_MS),
            ActionView::Paste(text),
        ]
    } else {
        seq![ActionView::Settle(FOCUS_SETTLE_MS), ActionView::Paste(text)]
    }
}

/// What a change of settings asks of the engine.
#[derive(Debug, Clone, Copy, PartialEq, Eq)]
pub enum Reload {
    /// The engine name changed: a new engine takes the old one's place.
    Rebuild,
    /// Only the model size changed, under the general-purpose backend: the
    /// engine stays and loads the other model.
    ReloadModel,
    /// The engine stays as it is.
    Keep,
}

/// What the change from `before` to `after` asks of the engine.
pub open spec fn reload_spec(before: &AppConfig, after: &AppConfig) -> Reload {
    if before.engine@ != after.engine@ {
        Reload::Rebuild
    } else if before.model_size@ != after.model_size@ && after.engine@ == "whisper"@ {
        Reload::ReloadModel
    } else {
        Reload::Keep
    }
}

/// What the change from `before` to `after` asks of the engine.
pub fn plan_reload(before: &AppConfig, after: &AppConfig) -> (reload: Reload)
    ensures
        reload == reload_spec(before, after),
{
    if !str_eq(before.engine.as_str(), after.engine.as_str()) {
        Reload::Rebuild
    } else if !str_eq(before.model_size.as_str(), after.model_size.as_str()) && str_eq(
        after.engine.as_str(),
        "whisper",
    ) {
        Reload::ReloadModel
    } else {
        Reload::Keep
    }
}

/// `request` asks the engine of the given kind to load the model at `path`
/// where it was found, and is absent where it was not.
pub open spec fn is_load_if_found(
    kind: EngineKind,
    path: Seq<char>,
    found: bool,
    request: Option<LoadRequest>,
) -> bool {
    if found {
        request matches Some(r) && is_load_plan(kind, path, true, Ok(r))
    } else {
        request is None
    }
}

/// The engine after new settings were put in place, and the request made
/// of it. A changed engine name gives a new engine of the named kind,
/// without a model; otherwise the engine stays as it was. Where the engine
/// name or, under the general-purpose backend, the model size has changed,
/// the model the new settings select is asked for if it was found.
pub open spec fn is_config_change(
    before: &AppConfig,
    kind_before: EngineKind,
    model_before: Option<Seq<char>>,
    root: Seq<char>,
    after: &AppConfig,
    found: bool,
    kind_after: EngineKind,
    model_after: Option<Seq<char>>,
    request: Option<LoadRequest>,
) -> bool {
    match reload_spec(before, after) {
        Reload::Rebuild => {
            &&& kind_after == kind_of_name(after.engine@)
            &&& model_after is None
            &&& is_load_if_found(kind_after, model_path_spec(root, after), found, request)
        },
        Reload::ReloadModel => {
            &&& kind_after == kind_before
            &&& model_after == model_before
            &&& is_load_if_found(kind_after, model_path_spec(root, after), found, request)
        },
        Reload::Keep => {
            &&& kind_after == kind_before
            &&& model_after == model_before
            &&& request is None
        },
    }
}

/// Switching to another engine name drops the loaded model, whatever was
/// loaded before: the engine has no model, and gets one only by a load that
/// succeeds.
pub proof fn lemma_switch_discards_model(
    before: &AppConfig,
    kind_before: EngineKind,
    model_before: Option<Seq<char>>,
    root: Seq<char>,
    after: &AppConfig,
    found: bool,
    kind_after: EngineKind,
    model_after: Option<Seq<char>>,
    request: Option<LoadRequest>,
    path: Seq<char>,
    native: Result<(), String>,
    model_later: Option<Seq<char>>,
    answer: Result<(), SttError>,
)
    requires
        before.engine@ != after.engine@,
        is_config_change(
            before,
            kind_before,
            model_before,
            root,
            after,
            found,
            kind_after,
            model_after,
            request,
        ),
        is_load_result(kind_after, model_after, path, native, model_later, answer),
    ensures
        model_after is None,
        kind_after == kind_of_name(after.engine@),
        model_later.is_some() == native.is_ok(),
{
}

/// What came of a request to transcribe.
#[derive(Debug, Clone, PartialEq, Eq)]
pub enum TranscriptionOutcome {
    /// The native recognizer returned.
    Answer(BackendOutcome),
    /// The native recognizer faulted and the fault was caught.
    Crashed,
}

/// The one owner of the recorder, the engine, the settings and the focus
/// target.
pub struct Orchestrator {
    recorder: AudioRecorder,
    engine: SttEngine,
    config: AppConfig,
    previous_focus: i32,
    transcribing: bool,
}

impl Orchestrator {
    /// The capture session.
    pub closed spec fn recorder(&self) -> RecorderState {
        self.recorder@
    }

    /// The backend in use.
    pub closed spec fn engine_kind(&self) -> EngineKind {
        self.engine.kind()
    }

    /// The path of the loaded model, if one is loaded.
    pub closed spec fn engine_model(&self) -> Option<Seq<char>> {
        self.engine.model()
    }

    /// The settings.
    pub closed spec fn config(&self) -> AppConfig {
        self.config
    }

    /// The process that had the focus when the last recording began.
    pub closed spec fn previous_focus(&self) -> i32 {
        self.previous_focus
    }

    /// Whether a recording is with the transcription engine.
    pub closed spec fn transcribing(&self) -> bool {
        self.transcribing
    }

    /// Where the orchestrator stands.
    pub open spec fn state(&self) -> RecordingState {
        if self.transcribing() {
            RecordingState::Transcribing
        } else if self.recorder().recording {
            RecordingState::Recording
        } else {
            RecordingState::Idle
        }
    }

    /// No session is active while a transcription runs.
    pub closed spec fn wf(&self) -> bool {
        self.recorder.wf() && !(self.transcribing && self.recorder@.recording)
    }

    /// Whether what the active session has captured can be brought to the
    /// engine's rate: its length at that rate fits the machine's index type.
    pub open spec fn can_stop(&self) -> bool {
        self.recorder().recording ==> resample_fits(
            self.recorder().samples.len() as int,
            self.recorder().sample_rate as int,
            ENGINE_SAMPLE_RATE as int,
        )
    }

    /// An idle orchestrator with the engine the settings name, no model
    /// loaded and no focus target.
    pub fn new(config: AppConfig) -> (orchestrator: Orchestrator)
        ensures
            orchestrator.wf(),
            orchestrator.state() == RecordingState::Idle,
            orchestrator.config() == config,
            orchestrator.engine_kind() == kind_of_name(config.engine@),
            orchestrator.engine_model() is None,
            orchestrator.previous_focus() == -1,
            orchestrator.recorder().samples == Seq::<i16>::empty(),
    {
        let engine: SttEngine = SttEngine::from_engine_name(config.engine.as_str());
        Orchestrator {
            recorder: AudioRecorder::new(),
            engine,
            config,
            previous_focus: -1,
            transcribing: false,
        }
    }

    /// Where the orchestrator stands.
    pub fn current_state(&self) -> (state: RecordingState)
        ensures
            state == self.state(),
    {
        if self.transcribing {
            RecordingState::Transcribing
        } else if self.recorder.is_recording() {
            RecordingState::Recording
        } else {
            RecordingState::Idle
        }
    }

    /// Whether `do_toggle_recording` may be called: what the active session has captured
    /// can be brought to the engine's rate.
    pub fn stop_fits(&self) -> (fits: bool)
        ensures
            fits == self.can_stop(),
    {
        if !self.recorder.is_recording() {
            return true;
        }
        can_resample(
            self.recorder.captured(),
            self.recorder.sample_rate(),
            ENGINE_SAMPLE_RATE,
        )
    }

    /// The settings.
    pub fn get_config(&self) -> (config: &AppConfig)
        ensures
            *config == self.config(),
    {
        &self.config
    }

    /// Whether a model is loaded.
    pub fn is_loaded(&self) -> (loaded: bool)
        ensures
            loaded == self.engine_model().is_some(),
    {
        self.engine.is_loaded()
    }

    /// The backend in use.
    pub fn engine(&self) -> (kind: EngineKind)
        ensures
            kind == self.engine_kind(),
    {
        self.engine.engine_kind()
    }

    /// The process that had the focus when the last recording began; `-1`
    /// before the first.
    pub fn focus_target(&self) -> (pid: i32)
        ensures
            pid == self.previous_focus(),
    {
        self.previous_focus
    }

    /// Number of samples the active session has captured.
    pub fn captured(&self) -> (count: usize)
        ensures
            count == self.recorder().samples.len(),
    {
        self.recorder.captured()
    }

    /// Takes note of the format of the stream that was opened for the session.
    pub fn open_stream(&mut self, sample_rate: u32, channels: u16, encoding: SampleEncoding) -> (opened:
        Result<(), AudioError>)
        requires
            old(self).wf(),
        ensures
            final(self).wf(),
            final(self).recorder() == (RecorderState {
                sample_rate: sample_rate,
                channels: channels,
                window: Seq::<i16>::empty(),
                ..old(self).recorder()
            }),
            final(self).engine_kind() == old(self).engine_kind(),
            final(self).engine_model() == old(self).engine_model(),
            final(self).config() == old(self).config(),
            final(self).previous_focus() == old(self).previous_focus(),
            final(self).transcribing() == old(self).transcribing(),
            encoding == SampleEncoding::Other ==> opened == Err::<(), AudioError>(
                AudioError::UnsupportedFormat,
            ),
            encoding != SampleEncoding::Other ==> opened is Ok,
    {
        self.recorder.open_stream(sample_rate, channels, encoding)
    }

    /// Takes one block of interleaved frames from the device; see
    /// `AudioRecorder::accept_block`.
    pub fn accept_block(&mut self, block: &[i16]) -> (reading: Option<u16>)
        requires
            old(self).wf(),
            old(self).recorder().channels > 0,
        ensures
            final(self).wf(),
            final(self).engine_kind() == old(self).engine_kind(),
            final(self).engine_model() == old(self).engine_model(),
            final(self).config() == old(self).config(),
            final(self).previous_focus() == old(self).previous_focus(),
            final(self).transcribing() == old(self).transcribing(),
            final(self).recorder().recording == old(self).recorder().recording,
            !old(self).recorder().recording ==> reading is None && final(self).recorder() == old(self).recorder(),
            old(self).recorder().recording ==> ({
                let mono = downmix_spec(block@, old(self).recorder().channels as int);
                let gathered = old(self).recorder().window + mono;
                &&& final(self).recorder().samples == old(self).recorder().samples + mono
                &&& final(self).recorder().sample_rate == old(self).recorder().sample_rate
                &&& final(self).recorder().channels == old(self).recorder().channels
                &&& final(self).recorder().device == old(self).recorder().device
                &&& gathered.len() < WAVEFORM_WINDOW ==> reading is None && final(self).recorder().window == gathered
                &&& gathered.len() >= WAVEFORM_WINDOW ==> reading is Some
                    && is_floor_sqrt(
                    reading.unwrap() as int,
                    mean_square(gathered),
                ) && reading.unwrap() <= FULL_SCALE && final(self).recorder().window
                    == Seq::<i16>::empty()
            }),
    {
        self.recorder.accept_block(block)
    }

    /// The control that starts and stops a recording.
    ///
    /// Idle: the focus target is noted, and the session starts on the
    /// configured device. Recording: the session stops; an empty or silent
    /// recording, or a missing model, is reported, and anything else is
    /// brought to the engine's rate and sent to be transcribed.
    /// Transcribing: nothing happens.
    pub fn do_toggle_recording(&mut self, frontmost_pid: i32) -> (actions: Vec<Action>)
        requires
            old(self).wf(),
            old(self).can_stop(),
        ensures
            final(self).wf(),
            final(self).engine_kind() == old(self).engine_kind(),
            final(self).engine_model() == old(self).engine_model(),
            final(self).config() == old(self).config(),
            old(self).state() == RecordingState::Transcribing ==> {
                &&& effects(actions@) == Seq::<ActionView>::empty()
                &&& final(self).recorder() == old(self).recorder()
                &&& final(self).previous_focus() == old(self).previous_focus()
                &&& final(self).transcribing()
            },
            old(self).state() == RecordingState::Idle ==> {
                &&& effects(actions@) == seq![
                    ActionView::ShowOverlay,
                    ActionView::OpenCapture(old(self).config().audio_device@),
                    ActionView::RegisterCancel,
                ]
                &&& final(self).state() == RecordingState::Recording
                &&& final(self).previous_focus() == frontmost_pid
                &&& final(self).recorder() == (RecorderState {
                    samples: Seq::<i16>::empty(),
                    recording: true,
                    device: old(self).config().audio_device@,
                    ..old(self).recorder()
                })
            },
            old(self).state() == RecordingState::Recording ==> ({
                let next = after_stop(
                    old(self).recorder().samples,
                    old(self).recorder().sample_rate,
                    old(self).config().audio_device@,
                    old(self).config().language@,
                    old(self).engine_kind(),
                    old(self).engine_model().is_some(),
                );
                &&& effects(actions@) == stop_effects() + next.1
                &&& final(self).transcribing() == next.0
                &&& final(self).previous_focus() == old(self).previous_focus()
                &&& final(self).recorder() == (RecorderState {
                    samples: Seq::<i16>::empty(),
                    recording: false,
                    ..old(self).recorder()
                })
            }),
    {
        let mut actions: Vec<Action> = Vec::new();
        if self.transcribing {
            assert(effects(actions@) =~= Seq::<ActionView>::empty());
            return actions;
        }
        if !self.recorder.is_recording() {
            self.previous_focus = frontmost_pid;
            actions.push(Action::ShowOverlay);
            match self.recorder.start(self.config.audio_device.as_str()) {
                Ok(_) => {
                    actions.push(Action::OpenCapture(self.config.audio_device.clone()));
                    actions.push(Action::RegisterCancel);
                },
                Err(e) => {
                    actions.push(Action::ReportError(PipelineError::StartFailed(e.message())));
                },
            }
            assert(effects(actions@) =~= seq![
                ActionView::ShowOverlay,
                ActionView::OpenCapture(old(self).config().audio_device@),
                ActionView::RegisterCancel,
            ]);
            return actions;
        }
        let ghost next = after_stop(
            old(self).recorder().samples,
            old(self).recorder().sample_rate,
            old(self).config().audio_device@,
            old(self).config().language@,
            old(self).engine_kind(),
            old(self).engine_model().is_some(),
        );
        let captured = self.recorder.stop();
        actions.push(Action::NotifyStopped);
        actions.push(Action::UnregisterCancel);
        actions.push(Action::HideOverlay);
        match captured {
            Err(e) => {
                actions.push(Action::ReportError(PipelineError::RecordingFailed(e.message())));
            },
            Ok((samples, rate)) => {
                if is_silent(samples.as_slice()) {
                    actions.push(
                        Action::ReportError(
                            PipelineError::SilenceDetected(self.config.audio_device.clone()),
                        ),
                    );
                } else {
                    let samples_16k: Vec<i16> = resample(
                        samples.as_slice(),
                        rate,
                        ENGINE_SAMPLE_RATE,
                    );
                    match self.engine.transcribe(samples_16k, self.config.language.as_str()) {
                        Ok(request) => {
                            self.transcribing = true;
                            actions.push(Action::Transcribe(request));
                        },
                        Err(_) => {
                            actions.push(Action::ReportError(PipelineError::NotLoaded));
                        },
                    }
                }
            },
        }
        assert(effects(actions@) =~= stop_effects() + next.1);
        actions
    }

    /// The control that cancels a recording: the session stops, what it
    /// captured is dropped, and nothing is transcribed or reported. Without
    /// an active session nothing happens.
    pub fn cancel_recording(&mut self) -> (actions: Vec<Action>)
        requires
            old(self).wf(),
        ensures
            final(self).wf(),
            final(self).engine_kind() == old(self).engine_kind(),
            final(self).engine_model() == old(self).engine_model(),
            final(self).config() == old(self).config(),
            final(self).previous_focus() == old(self).previous_focus(),
            final(self).transcribing() == old(self).transcribing(),
            !old(self).recorder().recording ==> effects(actions@) == Seq::<ActionView>::empty()
                && final(self).recorder() == old(self).recorder(),
            old(self).recorder().recording ==> {
                &&& effects(actions@) == stop_effects()
                &&& final(self).state() == RecordingState::Idle
                &&& final(self).recorder() == (RecorderState {
                    samples: Seq::<i16>::empty(),
                    recording: false,
                    ..old(self).recorder()
                })
            },
    {
        let mut actions: Vec<Action> = Vec::new();
        if !self.recorder.is_recording() {
            assert(effects(actions@) =~= Seq::<ActionView>::empty());
            return actions;
        }
        let _ = self.recorder.stop();
        actions.push(Action::NotifyStopped);
        actions.push(Action::UnregisterCancel);
        actions.push(Action::HideOverlay);
        assert(effects(actions@) =~= stop_effects());
        actions
    }

    /// Takes the answer to a request to transcribe and goes back to idle.
    ///
    /// A transcript that is not empty is pasted, after focus has gone back to
    /// a valid target and had time to settle; an empty one asks for nothing.
    /// An error of the recognizer and a caught fault are reported. Where no
    /// transcription was under way nothing happens.
    pub fn transcription_done(&mut self, outcome: TranscriptionOutcome) -> (actions: Vec<Action>)
        requires
            old(self).wf(),
        ensures
            final(self).wf(),
            final(self).engine_kind() == old(self).engine_kind(),
            final(self).engine_model() == old(self).engine_model(),
            final(self).config() == old(self).config(),
            final(self).previous_focus() == old(self).previous_focus(),
            final(self).recorder() == old(self).recorder(),
            !final(self).transcribing(),
            !old(self).transcribing() ==> effects(actions@) == Seq::<ActionView>::empty(),
            old(self).transcribing() ==> match outcome {
                TranscriptionOutcome::Crashed => effects(actions@) == seq![
                    ActionView::ReportError(PipelineErrorView::TranscriptionCrashed),
                ],
                TranscriptionOutcome::Answer(answer) => exists|text: Result<String, SttError>|
                    {
                        &&& #[trigger] is_transcript(old(self).engine_kind(), answer, text)
                        &&& effects(actions@) == match text {
                            Ok(t) => after_transcript(t@, old(self).previous_focus()),
                            Err(e) => seq![
                                ActionView::ReportError(
                                    PipelineErrorView::TranscriptionFailed(e.message_spec()),
                                ),
                            ],
                        }
                    },
            },
    {
        let mut actions: Vec<Action> = Vec::new();
        if !self.transcribing {
            assert(effects(actions@) =~= Seq::<ActionView>::empty());
            return actions;
        }
        self.transcribing = false;
        match outcome {
            TranscriptionOutcome::Crashed => {
                actions.push(Action::ReportError(PipelineError::TranscriptionCrashed));
                assert(effects(actions@) =~= seq![
                    ActionView::ReportError(PipelineErrorView::TranscriptionCrashed),
                ]);
            },
            TranscriptionOutcome::Answer(answer) => {
                let text = self.engine.finish_transcribe(answer);
                match &text {
                    Ok(t) => {
                        if t.as_str().unicode_len() > 0 {
                            if self.previous_focus > 0 {
                                actions.push(Action::RestoreFocus(self.previous_focus));
                            }
                            actions.push(Action::Settle(FOCUS_SETTLE_MS));
                            actions.push(Action::Paste(t.clone()));
                        }
                        assert(effects(actions@) =~= after_transcript(
                            t@,
                            old(self).previous_focus(),
                        ));
                    },
                    Err(e) => {
                        actions.push(
                            Action::ReportError(PipelineError::TranscriptionFailed(e.message())),
                        );
                        assert(effects(actions@) =~= seq![
                            ActionView::ReportError(
                                PipelineErrorView::TranscriptionFailed(e.message_spec()),
                            ),
                        ]);
                    },
                }
                assert(is_transcript(old(self).engine_kind(), answer, text));
            },
        }
        actions
    }

    /// The request to load the model the settings select, where it is on
    /// disk; `found` says whether it is.
    pub fn load_request(&self, root: &str, found: bool) -> (request: Option<LoadRequest>)
        ensures
            is_load_if_found(
                self.engine_kind(),
                model_path_spec(root@, &self.config()),
                found,
                request,
            ),
    {
        if !found {
            return None;
        }
        let path: String = get_model_path_for_config(root, &self.config);
        match self.engine.load_request(path.as_str(), true) {
            Ok(request) => Some(request),
            Err(_) => None,
        }
    }

    /// Looks on disk for the model the settings select and gives the request
    /// to load it, where it is there.
    pub fn initial_load(&self, root: &str) -> (request: Option<LoadRequest>)
        ensures
            exists|found: bool|
                is_load_if_found(
                    self.engine_kind(),
                    model_path_spec(root@, &self.config()),
                    found,
                    request,
                ),
    {
        let path: String = get_model_path_for_config(root, &self.config);
        let found: bool = path_exists(path.as_str());
        let request = self.load_request(root, found);
        proof {
            assert(is_load_if_found(
                self.engine_kind(),
                model_path_spec(root@, &self.config()),
                found,
                request,
            ));
        }
        request
    }

    /// Takes note of the backend's answer to loading the model at `path`. A
    /// loaded model replaces the one before; a failed load changes nothing.
    pub fn finish_load(&mut self, path: &str, native: Result<(), String>) -> (answer: Result<
        (),
        SttError,
    >)
        requires
            old(self).wf(),
        ensures
            final(self).wf(),
            final(self).engine_kind() == old(self).engine_kind(),
            final(self).config() == old(self).config(),
            final(self).previous_focus() == old(self).previous_focus(),
            final(self).recorder() == old(self).recorder(),
            final(self).transcribing() == old(self).transcribing(),
            is_load_result(
                old(self).engine_kind(),
                old(self).engine_model(),
                path@,
                native,
                final(self).engine_model(),
                answer,
            ),
    {
        self.engine.finish_load(path, native)
    }

    /// Puts new settings in place, given whether the model they select is on
    /// disk. A changed engine name puts a new engine, without a model, in
    /// the old one's place. Where the engine name or, under the
    /// general-purpose backend, the model size has changed, the model the
    /// new settings select is asked to be loaded if it was found.
    pub fn apply_config(&mut self, root: &str, config: AppConfig, found: bool) -> (request: Option<
        LoadRequest,
    >)
        requires
            old(self).wf(),
        ensures
            final(self).wf(),
            final(self).config() == config,
            final(self).previous_focus() == old(self).previous_focus(),
            final(self).recorder() == old(self).recorder(),
            final(self).transcribing() == old(self).transcribing(),
            is_config_change(
                &old(self).config(),
                old(self).engine_kind(),
                old(self).engine_model(),
                root@,
                &config,
                found,
                final(self).engine_kind(),
                final(self).engine_model(),
                request,
            ),
    {
        let reload: Reload = plan_reload(&self.config, &config);
        self.config = config;
        match reload {
            Reload::Rebuild => {
                self.engine = SttEngine::from_engine_name(self.config.engine.as_str());
                self.load_request(root, found)
            },
            Reload::ReloadModel => self.load_request(root, found),
            Reload::Keep => None,
        }
    }

    /// Puts new settings in place and looks on disk for the model they
    /// select; see `apply_config`.
    pub fn save_config(&mut self, root: &str, config: AppConfig) -> (request: Option<LoadRequest>)
        requires
            old(self).wf(),
        ensures
            final(self).wf(),
            final(self).config() == config,
            final(self).previous_focus() == old(self).previous_focus(),
            final(self).recorder() == old(self).recorder(),
            final(self).transcribing() == old(self).transcribing(),
            exists|found: bool|
                is_config_change(
                    &old(self).config(),
                    old(self).engine_kind(),
                    old(self).engine_model(),
                    root@,
                    &config,
                    found,
                    final(self).engine_kind(),
                    final(self).engine_model(),
                    request,
                ),
    {
        let path: String = get_model_path_for_config(root, &config);
        let found: bool = path_exists(path.as_str());
        let request = self.apply_config(root, config, found);
        proof {
            assert(is_config_change(
                &old(self).config(),
                old(self).engine_kind(),
                old(self).engine_model(),
                root@,
                &config,
                found,
                self.engine_kind(),
                self.engine_model(),
                request,
            ));
        }
        request
    }

    /// Takes the result of pasting: a failure is reported.
    pub fn paste_done(&self, pasted: Result<(), String>) -> (actions: Vec<Action>)
        ensures
            effects(actions@) == match pasted {
                Ok(_) => Seq::<ActionView>::empty(),
                Err(reason) => seq![
                    ActionView::ReportError(PipelineErrorView::PasteFailed(reason@)),
                ],
            },
    {
        let mut actions: Vec<Action> = Vec::new();
        match pasted {
            Ok(_) => {
                assert(effects(actions@) =~= Seq::<ActionView>::empty());
            },
            Err(reason) => {
                actions.push(Action::ReportError(PipelineError::PasteFailed(reason)));
                assert(effects(actions@) =~= seq![
                    ActionView::ReportError(PipelineErrorView::PasteFailed(reason@)),
                ]);
            },
        }
        actions
    }
}

} // verus!
