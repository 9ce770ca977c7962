//! The capture session: the sample buffer of one recording, the flag that
//! says whether it is running, and what happens to each block of frames the
//! input device delivers.

use vstd::prelude::*;
use crate::audio::{downmix, downmix_spec, is_floor_sqrt, mean_square, rms_level, FULL_SCALE, WAVEFORM_WINDOW};
use crate::text::{join2, join3, str_eq};

verus! {

/// Why a capture session could not start, run or deliver.
#[derive(Debug, Clone, PartialEq, Eq)]
pub enum AudioError {
    /// A session is already active.
    AlreadyRecording,
    /// The host has no default input device.
    NoDefaultDevice,
    /// The input devices could not be listed; holds the driver's words.
    EnumerationFailed(String),
    /// No input device has the configured name; holds that name.
    DeviceNotFound(String),
    /// The device has no default input configuration; holds the driver's words.
    NoInputConfig(String),
    /// The device delivers neither 16-bit integers nor 32-bit floats.
    UnsupportedFormat,
    /// The input stream could not be built; holds the driver's words.
    StreamBuildFailed(String),
    /// The input stream could not be started; holds the driver's words.
    StreamStartFailed(String),
    /// The session ended without a single captured sample.
    EmptyRecording,
}

impl AudioError {
    /// The text shown to the user for this error.
    pub open spec fn message_spec(&self) -> Seq<char> {
        match self {
            AudioError::AlreadyRecording => "Already recording"@,
            AudioError::NoDefaultDevice => "No default input device"@,
            AudioError::EnumerationFailed(e) => "Cannot enumerate devices: "@ + e@,
            AudioError::DeviceNotFound(name) => "Device '"@ + name@ + "' not found"@,
            AudioError::NoInputConfig(e) => "No default input config: "@ + e@,
            AudioError::UnsupportedFormat => "Unsupported sample format"@,
            AudioError::StreamBuildFailed(e) => "Failed to build stream: "@ + e@,
            AudioError::StreamStartFailed(e) => "Failed to start stream: "@ + e@,
            AudioError::EmptyRecording => "No audio recorded"@,
        }
    }

    /// The text shown to the user for this error.
    pub fn message(&self) -> (text: String)
        ensures
            text@ == self.message_spec(),
    {
        match self {
            AudioError::AlreadyRecording => String::from_str("Already recording"),
            AudioError::NoDefaultDevice => String::from_str("No default input device"),
            AudioError::EnumerationFailed(e) => join2("Cannot enumerate devices: ", e.as_str()),
            AudioError::DeviceNotFound(name) => join3("Device '", name.as_str(), "' not found"),
            AudioError::NoInputConfig(e) => join2("No default input config: ", e.as_str()),
            AudioError::UnsupportedFormat => String::from_str("Unsupported sample format"),
            AudioError::StreamBuildFailed(e) => join2("Failed to build stream: ", e.as_str()),
            AudioError::StreamStartFailed(e) => join2("Failed to start stream: ", e.as_str()),
            AudioError::EmptyRecording => String::from_str("No audio recorded"),
        }
    }
}

/// The name that stands for the host's default input device.
pub open spec fn default_device_name() -> Seq<char> {
    "default"@
}

/// Whether the configured device name asks for the host's default device.
pub fn wants_default_device(device_name: &str) -> (wanted: bool)
    ensures
        wanted == (device_name@ == default_device_name()),
{
    str_eq(device_name, "default")
}

/// Whether the device at `i` is readable and carries the name `wanted`.
pub open spec fn device_matches(names: Seq<Option<String>>, i: int, wanted: Seq<char>) -> bool {
    names[i] matches Some(name) && name@ == wanted
}

/// Finds the first listed input device with the given name. A device whose
/// name could not be read (`None`) matches nothing.
pub fn find_device(device_name: &str, names: &Vec<Option<String>>) -> (found: Result<
    usize,
    AudioError,
>)
    ensures
        match found {
            Ok(i) => i < names@.len() && device_matches(names@, i as int, device_name@)
                && forall|j: int| 0 <= j < i ==> !device_matches(names@, j, device_name@),
            Err(e) => {
                &&& forall|j: int|
                    0 <= j < names@.len() ==> !device_matches(names@, j, device_name@)
                &&& e matches AudioError::DeviceNotFound(name)
                &&& name@ == device_name@
            },
        },
{
    let n: usize = names.len();
    let mut i: usize = 0;
    while i < n
        invariant
            i <= n,
            n == names@.len(),
            forall|j: int| 0 <= j < i ==> !device_matches(names@, j, device_name@),
        decreases n - i,
    {
        let hit: bool = match &names[i] {
            Some(name) => str_eq(name.as_str(), device_name),
            None => false,
        };
        if hit {
            return Ok(i);
        }
        i = i + 1;
    }
    Err(AudioError::DeviceNotFound(String::from_str(device_name)))
}

/// The names of the devices whose name could be read, in their order.
pub open spec fn readable_names(names: Seq<Option<String>>) -> Seq<Seq<char>>
    decreases names.len(),
{
    if names.len() == 0 {
        Seq::empty()
    } else {
        match names.last() {
            Some(name) => readable_names(names.drop_last()).push(name@),
            None => readable_names(names.drop_last()),
        }
    }
}

/// The names of a list of strings.
pub open spec fn views_of(names: Seq<String>) -> Seq<Seq<char>> {
    names.map_values(|name: String| name@)
}

/// Lists the input devices by name, leaving out those whose name could not
/// be read.
pub fn list_input_devices(names: &Vec<Option<String>>) -> (listed: Vec<String>)
    ensures
        views_of(listed@) == readable_names(names@),
{
    let n: usize = names.len();
    let mut listed: Vec<String> = Vec::new();
    let mut i: usize = 0;
    while i < n
        invariant
            i <= n,
            n == names@.len(),
            views_of(listed@) == readable_names(names@.take(i as int)),
        decreases n - i,
    {
        proof {
            assert(names@.take(i + 1).drop_last() =~= names@.take(i as int));
        }
        let ghost before = listed@;
        match &names[i] {
            Some(name) => {
                let copy: String = name.clone();
                listed.push(copy);
                proof {
                    assert(views_of(listed@) =~= views_of(before).push(name@));
                }
            },
            None => {},
        }
        i = i + 1;
    }
    proof {
        assert(names@.take(n as int) =~= names@);
    }
    listed
}

/// Appends the samples of `more` to `buffer`.
pub fn append_samples(buffer: &mut Vec<i16>, more: &[i16])
    ensures
        final(buffer)@ == old(buffer)@ + more@,
{
    let n: usize = more.len();
    let mut i: usize = 0;
    while i < n
        invariant
            i <= n,
            n == more@.len(),
            buffer@ == old(buffer)@ + more@.take(i as int),
        decreases n - i,
    {
        buffer.push(more[i]);
        proof {
            assert(more@.take(i as int).push(more@[i as int]) =~= more@.take(i + 1));
            assert(buffer@ =~= old(buffer)@ + more@.take(i + 1));
        }
        i = i + 1;
    }
    proof {
        assert(more@.take(n as int) =~= more@);
    }
}

/// Gathers mono samples for the level meter. Whenever at least
/// `WAVEFORM_WINDOW` samples have come together, their level is read and the
/// window starts again empty.
pub struct WaveformWindow {
    buffer: Vec<i16>,
    counter: usize,
}

impl WaveformWindow {
    /// The samples gathered since the last reading.
    pub closed spec fn pending(&self) -> Seq<i16> {
        self.buffer@
    }

    /// The counter agrees with the buffer, and a full window never waits.
    pub closed spec fn wf(&self) -> bool {
        self.counter == self.buffer@.len() && self.counter < WAVEFORM_WINDOW
    }

    /// An empty window.
    pub fn new() -> (window: WaveformWindow)
        ensures
            window.wf(),
            window.pending() == Seq::<i16>::empty(),
    {
        WaveformWindow { buffer: Vec::new(), counter: 0 }
    }

    /// Number of samples gathered since the last reading.
    pub fn len(&self) -> (count: usize)
        requires
            self.wf(),
        ensures
            count == self.pending().len(),
            count < WAVEFORM_WINDOW,
    {
        self.counter
    }

    /// Forgets the gathered samples.
    pub fn reset(&mut self)
        ensures
            final(self).wf(),
            final(self).pending() == Seq::<i16>::empty(),
    {
        self.buffer.clear();
        self.counter = 0;
    }

    /// Adds mono samples. Gives a level reading, between zero and
    /// `FULL_SCALE`, when the window has filled: the root-mean-square of all
    /// samples gathered, after which the window is empty again.
    pub fn feed(&mut self, mono: &[i16]) -> (reading: Option<u16>)
        requires
            old(self).wf(),
        ensures
            final(self).wf(),
            old(self).pending().len() + mono@.len() < WAVEFORM_WINDOW ==> reading is None
                && final(self).pending() == old(self).pending() + mono@,
            old(self).pending().len() + mono@.len() >= WAVEFORM_WINDOW ==> reading is Some
                && is_floor_sqrt(
                reading.unwrap() as int,
                mean_square(old(self).pending() + mono@),
            ) && reading.unwrap() <= FULL_SCALE && final(self).pending() == Seq::<i16>::empty(),
    {
        append_samples(&mut self.buffer, mono);
        let gathered: usize = self.buffer.len();
        if gathered >= WAVEFORM_WINDOW {
            let level: u16 = rms_level(self.buffer.as_slice());
            self.buffer.clear();
            self.counter = 0;
            Some(level)
        } else {
            self.counter = gathered;
            None
        }
    }
}

/// The sample encodings an input device may deliver.
#[derive(Debug, Clone, Copy, PartialEq, Eq)]
pub enum SampleEncoding {
    /// Signed 16-bit integers.
    I16,
    /// 32-bit floats.
    F32,
    /// Anything else.
    Other,
}

/// What a recorder is, for contracts.
pub struct RecorderState {
    /// The mono samples captured so far in this session.
    pub samples: Seq<i16>,
    /// Whether a session is active.
    pub recording: bool,
    /// The device's sample rate, as last detected.
    pub sample_rate: u32,
    /// The device's channel count, as last detected.
    pub channels: u16,
    /// The name of the device the session was started on.
    pub device: Seq<char>,
    /// The samples waiting in the waveform window.
    pub window: Seq<i16>,
}

/// One capture session at a time: the shared sample buffer, the recording
/// flag, and the detected stream format.
pub struct AudioRecorder {
    samples: Vec<i16>,
    recording: bool,
    sample_rate: u32,
    channels: u16,
    device: String,
    window: WaveformWindow,
}

impl View for AudioRecorder {
    type V = RecorderState;

    closed spec fn view(&self) -> RecorderState {
        RecorderState {
            samples: self.samples@,
            recording: self.recording,
            sample_rate: self.sample_rate,
            channels: self.channels,
            device: self.device@,
            window: self.window.pending(),
        }
    }
}

impl AudioRecorder {
    /// The waveform window is well formed.
    pub closed spec fn wf(&self) -> bool {
        self.window.wf()
    }

    /// A recorder with no session and an empty buffer.
    pub fn new() -> (recorder: AudioRecorder)
        ensures
            recorder.wf(),
            !recorder@.recording,
            recorder@.samples == Seq::<i16>::empty(),
            recorder@.window == Seq::<i16>::empty(),
            recorder@.sample_rate == 0,
            recorder@.channels == 1,
            recorder@.device == Seq::<char>::empty(),
    {
        AudioRecorder {
            samples: Vec::new(),
            recording: false,
            sample_rate: 0,
            channels: 1,
            device: String::new(),
            window: WaveformWindow::new(),
        }
    }

    /// Whether a session is active.
    pub fn is_recording(&self) -> (active: bool)
        ensures
            active == self@.recording,
    {
        self.recording
    }

    /// The sample rate last detected.
    pub fn sample_rate(&self) -> (rate: u32)
        ensures
            rate == self@.sample_rate,
    {
        self.sample_rate
    }

    /// Number of samples captured so far.
    pub fn captured(&self) -> (count: usize)
        ensures
            count == self@.samples.len(),
    {
        self.samples.len()
    }

    /// Starts a session on the named device: the buffer is emptied and the
    /// flag raised. With a session already active nothing changes and
    /// `AlreadyRecording` comes back.
    pub fn start(&mut self, device_name: &str) -> (started: Result<(), AudioError>)
        requires
            old(self).wf(),
        ensures
            final(self).wf(),
            old(self)@.recording ==> started == Err::<(), AudioError>(AudioError::AlreadyRecording)
                && final(self)@ == old(self)@,
            !old(self)@.recording ==> started is Ok && final(self)@ == (RecorderState {
                samples: Seq::<i16>::empty(),
                recording: true,
                device: device_name@,
                ..old(self)@
            }),
    {
        if self.recording {
            return Err(AudioError::AlreadyRecording);
        }
        self.samples.clear();
        self.recording = true;
        self.device = String::from_str(device_name);
        Ok(())
    }

    /// Takes note of the format of the stream that was opened for the
    /// session, and empties the waveform window. A device that delivers
    /// neither 16-bit integers nor 32-bit floats is refused; its rate and
    /// channel count are noted all the same.
    pub fn open_stream(&mut self, sample_rate: u32, channels: u16, encoding: SampleEncoding) -> (opened:
        Result<(), AudioError>)
        ensures
            final(self).wf(),
            final(self)@ == (RecorderState {
                sample_rate: sample_rate,
                channels: channels,
                window: Seq::<i16>::empty(),
                ..old(self)@
            }),
            encoding == SampleEncoding::Other ==> opened == Err::<(), AudioError>(
                AudioError::UnsupportedFormat,
            ),
            encoding != SampleEncoding::Other ==> opened is Ok,
    {
        self.sample_rate = sample_rate;
        self.channels = channels;
        self.window.reset();
        match encoding {
            SampleEncoding::Other => Err(AudioError::UnsupportedFormat),
            _ => Ok(()),
        }
    }

    /// Takes one block of interleaved frames from the device. Without an
    /// active session the block is ignored. Otherwise its frames are averaged
    /// to mono and appended to the buffer and to the waveform window; the
    /// level reading comes back when the window has filled.
    pub fn accept_block(&mut self, block: &[i16]) -> (reading: Option<u16>)
        requires
            old(self).wf(),
            old(self)@.channels > 0,
        ensures
            final(self).wf(),
            !old(self)@.recording ==> reading is None && final(self)@ == old(self)@,
            old(self)@.recording ==> ({
                let mono = downmix_spec(block@, old(self)@.channels as int);
                let gathered = old(self)@.window + mono;
                &&& final(self)@.samples == old(self)@.samples + mono
                &&& final(self)@.recording
                &&& final(self)@.sample_rate == old(self)@.sample_rate
                &&& final(self)@.channels == old(self)@.channels
                &&& final(self)@.device == old(self)@.device
                &&& gathered.len() < WAVEFORM_WINDOW ==> reading is None && final(self)@.window
                    == gathered
                &&& gathered.len() >= WAVEFORM_WINDOW ==> reading is Some && is_floor_sqrt(
                    reading.unwrap() as int,
                    mean_square(gathered),
                ) && reading.unwrap() <= FULL_SCALE && final(self)@.window == Seq::<i16>::empty()
            }),
    {
        if !self.recording {
            return None;
        }
        let mono: Vec<i16> = downmix(block, self.channels);
        append_samples(&mut self.samples, mono.as_slice());
        self.window.feed(mono.as_slice())
    }

    /// Ends the session and hands over what was captured, with the sample
    /// rate. The flag is lowered and the buffer left empty in any case; a
    /// session without a single sample gives `EmptyRecording`.
    pub fn stop(&mut self) -> (captured: Result<(Vec<i16>, u32), AudioError>)
        requires
            old(self).wf(),
        ensures
            final(self).wf(),
            final(self)@ == (RecorderState {
                samples: Seq::<i16>::empty(),
                recording: false,
                ..old(self)@
            }),
            old(self)@.samples.len() == 0 ==> captured == Err::<(Vec<i16>, u32), AudioError>(
                AudioError::EmptyRecording,
            ),
            old(self)@.samples.len() > 0 ==> captured is Ok && captured.unwrap().0@ == old(self)@.samples && captured.unwrap().1 == old(self)@.sample_rate,
    {
        self.recording = false;
        let mut samples: Vec<i16> = Vec::new();
        core::mem::swap(&mut samples, &mut self.samples);
        if samples.len() == 0 {
            return Err(AudioError::EmptyRecording);
        }
        Ok((samples, self.sample_rate))
    }
}

} // verus!
