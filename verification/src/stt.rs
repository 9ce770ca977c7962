//! The transcription engine: one of two backends, the model it has loaded,
//! and what is handed to and taken from the native recognizer.
//!
//! The recognizers themselves run outside this library. An engine here
//! decides what they are asked to do and what becomes of their answer.

use vstd::prelude::*;
use crate::paths::path_exists;
use crate::text::{concat_pieces, concat_readable, join2, str_eq, trim, trim_spec};

verus! {

/// Sample rate every backend is fed with.
pub const ENGINE_SAMPLE_RATE: u32 = 16000;

/// Worker threads of the general-purpose backend's decoder.
pub const WHISPER_THREADS: u32 = 4;

/// Intra-op threads of the streaming backend.
pub const PARAKEET_THREADS: u32 = 4;

/// The two backends.
#[derive(Debug, Clone, Copy, PartialEq, Eq)]
pub enum EngineKind {
    /// The general-purpose acoustic model.
    Whisper,
    /// The streaming-transformer model.
    Parakeet,
}

/// Why an engine could not load a model or transcribe.
#[derive(Debug, Clone, PartialEq, Eq)]
pub enum SttError {
    /// Nothing exists at the model's path.
    ModelNotFound { engine: EngineKind, path: String },
    /// The backend refused the model; holds its words.
    ModelLoadFailed { engine: EngineKind, reason: String },
    /// No model has been loaded.
    NotLoaded { engine: EngineKind },
    /// The backend could not set up a decoding state; holds its words.
    StateFailed { reason: String },
    /// The backend failed while transcribing; holds its words.
    TranscriptionFailed { engine: EngineKind, reason: String },
}

impl SttError {
    /// The text shown to the user for this error.
    pub open spec fn message_spec(&self) -> Seq<char> {
        match self {
            SttError::ModelNotFound { engine: EngineKind::Whisper, path } => "Model not found: "@
                + path@,
            SttError::ModelNotFound { engine: EngineKind::Parakeet, path } =>
                "Parakeet model dir not found: "@ + path@,
            SttError::ModelLoadFailed { engine: EngineKind::Whisper, reason } =>
                "Failed to load whisper model: "@ + reason@,
            SttError::ModelLoadFailed { engine: EngineKind::Parakeet, reason } =>
                "Failed to load Parakeet model: "@ + reason@,
            SttError::NotLoaded { engine: EngineKind::Whisper } => "Whisper model not loaded"@,
            SttError::NotLoaded { engine: EngineKind::Parakeet } => "Parakeet model not loaded"@,
            SttError::StateFailed { reason } => "Failed to create state: "@ + reason@,
            SttError::TranscriptionFailed { engine: EngineKind::Whisper, reason } =>
                "Transcription failed: "@ + reason@,
            SttError::TranscriptionFailed { engine: EngineKind::Parakeet, reason } =>
                "Parakeet transcription failed: "@ + reason@,
        }
    }

    /// The text shown to the user for this error.
    pub fn message(&self) -> (text: String)
        ensures
            text@ == self.message_spec(),
    {
        match self {
            SttError::ModelNotFound { engine: EngineKind::Whisper, path } => join2(
                "Model not found: ",
                path.as_str(),
            ),
            SttError::ModelNotFound { engine: EngineKind::Parakeet, path } => join2(
                "Parakeet model dir not found: ",
                path.as_str(),
            ),
            SttError::ModelLoadFailed { engine: EngineKind::Whisper, reason } => join2(
                "Failed to load whisper model: ",
                reason.as_str(),
            ),
            SttError::ModelLoadFailed { engine: EngineKind::Parakeet, reason } => join2(
                "Failed to load Parakeet model: ",
                reason.as_str(),
            ),
            SttError::NotLoaded { engine: EngineKind::Whisper } => String::from_str(
                "Whisper model not loaded",
            ),
            SttError::NotLoaded { engine: EngineKind::Parakeet } => String::from_str(
                "Parakeet model not loaded",
            ),
            SttError::StateFailed { reason } => join2("Failed to create state: ", reason.as_str()),
            SttError::TranscriptionFailed { engine: EngineKind::Whisper, reason } => join2(
                "Transcription failed: ",
                reason.as_str(),
            ),
            SttError::TranscriptionFailed { engine: EngineKind::Parakeet, reason } => join2(
                "Parakeet transcription failed: ",
                reason.as_str(),
            ),
        }
    }
}

/// What the native recognizer is asked to load.
#[derive(Debug, Clone, PartialEq, Eq)]
pub struct LoadRequest {
    /// The backend that loads.
    pub engine: EngineKind,
    /// A weights file for the general-purpose backend; the directory of the
    /// model's files for the streaming backend.
    pub path: String,
    /// Intra-op thread count, where the backend takes one at loading.
    pub intra_threads: Option<u32>,
}

/// What the native recognizer is asked to transcribe.
#[derive(Debug, Clone, PartialEq, Eq)]
pub enum TranscribeRequest {
    /// Single-best decoding of all segments by the general-purpose backend.
    Whisper {
        samples: Vec<i16>,
        /// The language to force; `None` lets the backend detect it.
        language: Option<String>,
        best_of: u32,
        threads: u32,
        suppress_blank: bool,
        single_segment: bool,
    },
    /// One pass of the streaming backend, which detects the language itself.
    Parakeet { samples: Vec<i16>, sample_rate: u32, channels: u16 },
}

/// What came back from the native recognizer.
#[derive(Debug, Clone, PartialEq, Eq)]
pub enum BackendOutcome {
    /// The segments in time order; `None` for one that could not be read.
    Segments(Vec<Option<String>>),
    /// The whole text.
    Text(String),
    /// No decoding state could be set up; holds the backend's words.
    StateFailed(String),
    /// Transcribing failed; holds the backend's words.
    Failed(String),
}

/// Intra-op thread count handed over at loading.
pub open spec fn load_threads(kind: EngineKind) -> Option<u32> {
    match kind {
        EngineKind::Whisper => None,
        EngineKind::Parakeet => Some(PARAKEET_THREADS),
    }
}

/// `planned` is the answer to a request to load the model at `path`, where
/// `found` says whether anything exists there.
pub open spec fn is_load_plan(
    kind: EngineKind,
    path: Seq<char>,
    found: bool,
    planned: Result<LoadRequest, SttError>,
) -> bool {
    if found {
        &&& planned matches Ok(request)
        &&& request.engine == kind
        &&& request.path@ == path
        &&& request.intra_threads == load_threads(kind)
    } else {
        &&& planned matches Err(SttError::ModelNotFound { engine, path: missing })
        &&& engine == kind
        &&& missing@ == path
    }
}

/// The language handed to the general-purpose backend: none for `"auto"`.
pub open spec fn language_hint(language: Seq<char>) -> Option<Seq<char>> {
    if language == "auto"@ {
        None
    } else {
        Some(language)
    }
}

/// The characters of an optional string.
pub open spec fn slot_view(slot: Option<String>) -> Option<Seq<char>> {
    match slot {
        Some(path) => Some(path@),
        None => None,
    }
}

/// What a request to transcribe is, for contracts.
pub enum RequestView {
    /// Single-best decoding of all segments by the general-purpose backend.
    Whisper {
        samples: Seq<i16>,
        language: Option<Seq<char>>,
        best_of: u32,
        threads: u32,
        suppress_blank: bool,
        single_segment: bool,
    },
    /// One pass of the streaming backend.
    Parakeet { samples: Seq<i16>, sample_rate: u32, channels: u16 },
}

impl View for TranscribeRequest {
    type V = RequestView;

    open spec fn view(&self) -> RequestView {
        match self {
            TranscribeRequest::Whisper {
                samples,
                language,
                best_of,
                threads,
                suppress_blank,
                single_segment,
            } => RequestView::Whisper {
                samples: samples@,
                language: slot_view(*language),
                best_of: *best_of,
                threads: *threads,
                suppress_blank: *suppress_blank,
                single_segment: *single_segment,
            },
            TranscribeRequest::Parakeet { samples, sample_rate, channels } => RequestView::Parakeet {
                samples: samples@,
                sample_rate: *sample_rate,
                channels: *channels,
            },
        }
    }
}

/// The request a loaded engine of the given kind makes for `samples`: the
/// general-purpose backend decodes single-best over all segments with a
/// fixed thread count and the language hint; the streaming backend takes
/// mono samples at `ENGINE_SAMPLE_RATE` and no language.
pub open spec fn request_spec(kind: EngineKind, samples: Seq<i16>, language: Seq<char>) -> RequestView {
    match kind {
        EngineKind::Whisper => RequestView::Whisper {
            samples,
            language: language_hint(language),
            best_of: 1,
            threads: WHISPER_THREADS,
            suppress_blank: true,
            single_segment: false,
        },
        EngineKind::Parakeet => RequestView::Parakeet {
            samples,
            sample_rate: ENGINE_SAMPLE_RATE,
            channels: 1,
        },
    }
}

/// `planned` is the answer to a request to transcribe `samples`: refused
/// without a model, the backend's request otherwise.
pub open spec fn is_transcribe_plan(
    kind: EngineKind,
    loaded: bool,
    samples: Seq<i16>,
    language: Seq<char>,
    planned: Result<TranscribeRequest, SttError>,
) -> bool {
    if !loaded {
        planned matches Err(SttError::NotLoaded { engine }) && engine == kind
    } else {
        planned matches Ok(request) && request@ == request_spec(kind, samples, language)
    }
}

/// `text` is what the backend's answer `outcome` amounts to.
pub open spec fn is_transcript(
    kind: EngineKind,
    outcome: BackendOutcome,
    text: Result<String, SttError>,
) -> bool {
    match outcome {
        BackendOutcome::Segments(pieces) => text matches Ok(t) && t@ == trim_spec(
            concat_readable(pieces@),
        ),
        BackendOutcome::Text(whole) => text matches Ok(t) && t@ == trim_spec(whole@),
        BackendOutcome::StateFailed(why) => text matches Err(SttError::StateFailed { reason })
            && reason@ == why@,
        BackendOutcome::Failed(why) => {
            &&& text matches Err(SttError::TranscriptionFailed { engine, reason })
            &&& engine == kind
            &&& reason@ == why@
        },
    }
}

/// Decides a request to load the model at `path`.
pub fn plan_load(kind: EngineKind, path: &str, found: bool) -> (planned: Result<
    LoadRequest,
    SttError,
>)
    ensures
        is_load_plan(kind, path@, found, planned),
{
    if !found {
        return Err(SttError::ModelNotFound { engine: kind, path: String::from_str(path) });
    }
    let intra_threads: Option<u32> = match kind {
        EngineKind::Whisper => None,
        EngineKind::Parakeet => Some(PARAKEET_THREADS),
    };
    Ok(LoadRequest { engine: kind, path: String::from_str(path), intra_threads })
}

/// Decides a request to transcribe `samples`, mono at `ENGINE_SAMPLE_RATE`.
pub fn plan_transcribe(kind: EngineKind, loaded: bool, samples: Vec<i16>, language: &str) -> (planned:
    Result<TranscribeRequest, SttError>)
    ensures
        is_transcribe_plan(kind, loaded, samples@, language@, planned),
{
    if !loaded {
        return Err(SttError::NotLoaded { engine: kind });
    }
    match kind {
        EngineKind::Whisper => {
            let hint: Option<String> = if str_eq(language, "auto") {
                None
            } else {
                Some(String::from_str(language))
            };
            Ok(
                TranscribeRequest::Whisper {
                    samples,
                    language: hint,
                    best_of: 1,
                    threads: WHISPER_THREADS,
                    suppress_blank: true,
                    single_segment: false,
                },
            )
        },
        EngineKind::Parakeet => Ok(
            TranscribeRequest::Parakeet { samples, sample_rate: ENGINE_SAMPLE_RATE, channels: 1 },
        ),
    }
}

/// Turns the backend's answer into the transcript: the segments joined in
/// their order, or the whole text, without white space at either end; or the
/// error the backend reported.
pub fn read_outcome(kind: EngineKind, outcome: BackendOutcome) -> (text: Result<String, SttError>)
    ensures
        is_transcript(kind, outcome, text),
{
    match outcome {
        BackendOutcome::Segments(pieces) => {
            let joined: String = concat_pieces(&pieces);
            Ok(trim(joined.as_str()))
        },
        BackendOutcome::Text(whole) => Ok(trim(whole.as_str())),
        BackendOutcome::StateFailed(why) => Err(SttError::StateFailed { reason: why }),
        BackendOutcome::Failed(why) => Err(
            SttError::TranscriptionFailed { engine: kind, reason: why },
        ),
    }
}

/// `loaded` is what becomes of the model slot `before` when the backend
/// answers `native` to loading the model at `path`, and `answer` is what the
/// caller is told.
pub open spec fn is_load_result(
    kind: EngineKind,
    before: Option<Seq<char>>,
    path: Seq<char>,
    native: Result<(), String>,
    after: Option<Seq<char>>,
    answer: Result<(), SttError>,
) -> bool {
    match native {
        Ok(_) => answer is Ok && after == Some(path),
        Err(why) => {
            &&& after == before
            &&& answer matches Err(SttError::ModelLoadFailed { engine, reason })
            &&& engine == kind
            &&& reason@ == why@
        },
    }
}

/// Puts the backend's answer to a load into the model slot: a loaded model
/// takes the slot, a failed load leaves the slot as it was.
pub fn settle_load(
    kind: EngineKind,
    slot: &mut Option<String>,
    path: &str,
    native: Result<(), String>,
) -> (answer: Result<(), SttError>)
    ensures
        is_load_result(kind, slot_view(*old(slot)), path@, native, slot_view(*final(slot)), answer),
{
    match native {
        Ok(_) => {
            *slot = Some(String::from_str(path));
            Ok(())
        },
        Err(why) => Err(SttError::ModelLoadFailed { engine: kind, reason: why }),
    }
}

/// The general-purpose backend.
pub struct WhisperEngine {
    model: Option<String>,
}

impl WhisperEngine {
    /// The path of the loaded model, if one is loaded.
    pub closed spec fn model(&self) -> Option<Seq<char>> {
        slot_view(self.model)
    }

    /// An engine without a model.
    pub fn new() -> (engine: WhisperEngine)
        ensures
            engine.model() is None,
    {
        WhisperEngine { model: None }
    }

    /// Decides a request to load the weights file at `model_path`, given
    /// whether it exists.
    pub fn load_request(&self, model_path: &str, found: bool) -> (planned: Result<
        LoadRequest,
        SttError,
    >)
        ensures
            is_load_plan(EngineKind::Whisper, model_path@, found, planned),
    {
        plan_load(EngineKind::Whisper, model_path, found)
    }

    /// Looks for the weights file at `model_path` and decides the request to
    /// load it. The engine changes only when the load is reported back.
    pub fn load_model(&self, model_path: &str) -> (planned: Result<LoadRequest, SttError>)
        ensures
            exists|found: bool| is_load_plan(EngineKind::Whisper, model_path@, found, planned),
    {
        let found: bool = path_exists(model_path);
        let planned = plan_load(EngineKind::Whisper, model_path, found);
        proof {
            assert(is_load_plan(EngineKind::Whisper, model_path@, found, planned));
        }
        planned
    }

    /// Takes note of the backend's answer to loading the model at `model_path`.
    pub fn finish_load(&mut self, model_path: &str, native: Result<(), String>) -> (answer: Result<
        (),
        SttError,
    >)
        ensures
            is_load_result(
                EngineKind::Whisper,
                old(self).model(),
                model_path@,
                native,
                final(self).model(),
                answer,
            ),
    {
        settle_load(EngineKind::Whisper, &mut self.model, model_path, native)
    }

    /// Whether a model is loaded.
    pub fn is_loaded(&self) -> (loaded: bool)
        ensures
            loaded == self.model().is_some(),
    {
        self.model.is_some()
    }

    /// Decides a request to transcribe: refused without a model; otherwise
    /// single-best decoding, with the language forced unless it is `"auto"`.
    pub fn transcribe(&self, samples: Vec<i16>, language: &str) -> (planned: Result<
        TranscribeRequest,
        SttError,
    >)
        ensures
            is_transcribe_plan(
                EngineKind::Whisper,
                self.model().is_some(),
                samples@,
                language@,
                planned,
            ),
    {
        plan_transcribe(EngineKind::Whisper, self.model.is_some(), samples, language)
    }

    /// Turns the backend's answer into the transcript.
    pub fn finish_transcribe(&self, outcome: BackendOutcome) -> (text: Result<String, SttError>)
        ensures
            is_transcript(EngineKind::Whisper, outcome, text),
    {
        read_outcome(EngineKind::Whisper, outcome)
    }
}

/// The streaming backend.
pub struct ParakeetEngine {
    model: Option<String>,
}

impl ParakeetEngine {
    /// The directory of the loaded model, if one is loaded.
    pub closed spec fn model(&self) -> Option<Seq<char>> {
        slot_view(self.model)
    }

    /// An engine without a model.
    pub fn new() -> (engine: ParakeetEngine)
        ensures
            engine.model() is None,
    {
        ParakeetEngine { model: None }
    }

    /// Decides a request to load the model files in `model_dir`, given
    /// whether the directory exists.
    pub fn load_request(&self, model_dir: &str, found: bool) -> (planned: Result<
        LoadRequest,
        SttError,
    >)
        ensures
            is_load_plan(EngineKind::Parakeet, model_dir@, found, planned),
    {
        plan_load(EngineKind::Parakeet, model_dir, found)
    }

    /// Looks for the directory `model_dir` and decides the request to load
    /// from it. The engine changes only when the load is reported back.
    pub fn load_model(&self, model_dir: &str) -> (planned: Result<LoadRequest, SttError>)
        ensures
            exists|found: bool| is_load_plan(EngineKind::Parakeet, model_dir@, found, planned),
    {
        let found: bool = path_exists(model_dir);
        let planned = plan_load(EngineKind::Parakeet, model_dir, found);
        proof {
            assert(is_load_plan(EngineKind::Parakeet, model_dir@, found, planned));
        }
        planned
    }

    /// Takes note of the backend's answer to loading from `model_dir`.
    pub fn finish_load(&mut self, model_dir: &str, native: Result<(), String>) -> (answer: Result<
        (),
        SttError,
    >)
        ensures
            is_load_result(
                EngineKind::Parakeet,
                old(self).model(),
                model_dir@,
                native,
                final(self).model(),
                answer,
            ),
    {
        settle_load(EngineKind::Parakeet, &mut self.model, model_dir, native)
    }

    /// Whether a model is loaded.
    pub fn is_loaded(&self) -> (loaded: bool)
        ensures
            loaded == self.model().is_some(),
    {
        self.model.is_some()
    }

    /// Decides a request to transcribe: refused without a model; otherwise
    /// one pass over mono samples at `ENGINE_SAMPLE_RATE`. The language is
    /// not used.
    pub fn transcribe(&self, samples: Vec<i16>, language: &str) -> (planned: Result<
        TranscribeRequest,
        SttError,
    >)
        ensures
            is_transcribe_plan(
                EngineKind::Parakeet,
                self.model().is_some(),
                samples@,
                language@,
                planned,
            ),
    {
        plan_transcribe(EngineKind::Parakeet, self.model.is_some(), samples, language)
    }

    /// Turns the backend's answer into the transcript.
    pub fn finish_transcribe(&self, outcome: BackendOutcome) -> (text: Result<String, SttError>)
        ensures
            is_transcript(EngineKind::Parakeet, outcome, text),
    {
        read_outcome(EngineKind::Parakeet, outcome)
    }
}

enum EngineInner {
    Whisper(WhisperEngine),
    Parakeet(ParakeetEngine),
}

/// One engine of either kind.
pub struct SttEngine {
    inner: EngineInner,
}

/// The backend an engine name selects: the streaming one for `"parakeet"`,
/// the general-purpose one for every other name.
pub open spec fn kind_of_name(name: Seq<char>) -> EngineKind {
    if name == "parakeet"@ {
        EngineKind::Parakeet
    } else {
        EngineKind::Whisper
    }
}

/// The backend an engine name selects.
pub fn engine_kind_of(name: &str) -> (kind: EngineKind)
    ensures
        kind == kind_of_name(name@),
{
    if str_eq(name, "parakeet") {
        EngineKind::Parakeet
    } else {
        EngineKind::Whisper
    }
}

impl SttEngine {
    /// The backend of this engine.
    pub closed spec fn kind(&self) -> EngineKind {
        match self.inner {
            EngineInner::Whisper(_) => EngineKind::Whisper,
            EngineInner::Parakeet(_) => EngineKind::Parakeet,
        }
    }

    /// The path of the loaded model, if one is loaded.
    pub closed spec fn model(&self) -> Option<Seq<char>> {
        match self.inner {
            EngineInner::Whisper(w) => w.model(),
            EngineInner::Parakeet(p) => p.model(),
        }
    }

    /// A general-purpose engine without a model.
    pub fn new_whisper() -> (engine: SttEngine)
        ensures
            engine.kind() == EngineKind::Whisper,
            engine.model() is None,
    {
        SttEngine { inner: EngineInner::Whisper(WhisperEngine::new()) }
    }

    /// A streaming engine without a model.
    pub fn new_parakeet() -> (engine: SttEngine)
        ensures
            engine.kind() == EngineKind::Parakeet,
            engine.model() is None,
    {
        SttEngine { inner: EngineInner::Parakeet(ParakeetEngine::new()) }
    }

    /// A new engine of the backend that `name` selects, without a model.
    pub fn from_engine_name(name: &str) -> (engine: SttEngine)
        ensures
            engine.kind() == kind_of_name(name@),
            engine.model() is None,
    {
        match engine_kind_of(name) {
            EngineKind::Parakeet => SttEngine::new_parakeet(),
            EngineKind::Whisper => SttEngine::new_whisper(),
        }
    }

    /// The backend of this engine.
    pub fn engine_kind(&self) -> (kind: EngineKind)
        ensures
            kind == self.kind(),
    {
        match &self.inner {
            EngineInner::Whisper(_) => EngineKind::Whisper,
            EngineInner::Parakeet(_) => EngineKind::Parakeet,
        }
    }

    /// Decides a request to load the model at `path`, given whether
    /// anything exists there.
    pub fn load_request(&self, path: &str, found: bool) -> (planned: Result<LoadRequest, SttError>)
        ensures
            is_load_plan(self.kind(), path@, found, planned),
    {
        match &self.inner {
            EngineInner::Whisper(w) => w.load_request(path, found),
            EngineInner::Parakeet(p) => p.load_request(path, found),
        }
    }

    /// Looks for the model at `path` and decides the request to load it. The
    /// engine changes only when the load is reported back.
    pub fn load_model(&self, path: &str) -> (planned: Result<LoadRequest, SttError>)
        ensures
            exists|found: bool| is_load_plan(self.kind(), path@, found, planned),
    {
        match &self.inner {
            EngineInner::Whisper(w) => w.load_model(path),
            EngineInner::Parakeet(p) => p.load_model(path),
        }
    }

    /// Takes note of the backend's answer to loading the model at `path`. A
    /// loaded model replaces the one before; a failed load changes nothing.
    pub fn finish_load(&mut self, path: &str, native: Result<(), String>) -> (answer: Result<
        (),
        SttError,
    >)
        ensures
            final(self).kind() == old(self).kind(),
            is_load_result(
                old(self).kind(),
                old(self).model(),
                path@,
                native,
                final(self).model(),
                answer,
            ),
    {
        match &mut self.inner {
            EngineInner::Whisper(w) => w.finish_load(path, native),
            EngineInner::Parakeet(p) => p.finish_load(path, native),
        }
    }

    /// Whether a model is loaded.
    pub fn is_loaded(&self) -> (loaded: bool)
        ensures
            loaded == self.model().is_some(),
    {
        match &self.inner {
            EngineInner::Whisper(w) => w.is_loaded(),
            EngineInner::Parakeet(p) => p.is_loaded(),
        }
    }

    /// Decides a request to transcribe `samples`, mono at
    /// `ENGINE_SAMPLE_RATE`: refused with `NotLoaded` without a model.
    pub fn transcribe(&self, samples: Vec<i16>, language: &str) -> (planned: Result<
        TranscribeRequest,
        SttError,
    >)
        ensures
            is_transcribe_plan(self.kind(), self.model().is_some(), samples@, language@, planned),
    {
        match &self.inner {
            EngineInner::Whisper(w) => w.transcribe(samples, language),
            EngineInner::Parakeet(p) => p.transcribe(samples, language),
        }
    }

    /// Turns the backend's answer into the transcript.
    pub fn finish_transcribe(&self, outcome: BackendOutcome) -> (text: Result<String, SttError>)
        ensures
            is_transcript(self.kind(), outcome, text),
    {
        match &self.inner {
            EngineInner::Whisper(w) => w.finish_transcribe(outcome),
            EngineInner::Parakeet(p) => p.finish_transcribe(outcome),
        }
    }
}

/// An engine that has never loaded a model refuses to transcribe, whatever
/// the samples and the language.
pub proof fn lemma_unloaded_engine_refuses(
    engine: SttEngine,
    samples: Seq<i16>,
    language: Seq<char>,
    planned: Result<TranscribeRequest, SttError>,
)
    requires
        engine.model() is None,
        is_transcribe_plan(engine.kind(), engine.model().is_some(), samples, language, planned),
    ensures
        planned matches Err(SttError::NotLoaded { engine: kind }) && kind == engine.kind(),
{
}

/// An engine without a model stays without one when a load fails, and has
/// the model at the given path when the load succeeds.
pub proof fn lemma_load_decides_loaded(
    kind: EngineKind,
    path: Seq<char>,
    native: Result<(), String>,
    after: Option<Seq<char>>,
    answer: Result<(), SttError>,
)
    requires
        is_load_result(kind, None, path, native, after, answer),
    ensures
        after.is_some() == native.is_ok(),
        answer.is_ok() == native.is_ok(),
        native.is_ok() ==> after == Some(path),
{
}

} // verus!
