//! The recording lifecycle: the single authority over whether a recording is
//! open. Each method is one critical section of the shared application
//! state; the slow work (opening a stream, the network call, typing) is done
//! by the caller outside it, from what these methods hand back.

use vstd::prelude::*;
use crate::capture::{accepts, after_write, wav_layout, well_sized, AudioRecorder, InputConfig, WavFormat};
use crate::error::FlowError;
use crate::provider::{base_url_of, build_request, provider_base_url, TranscriptionRequest};
use crate::settings::{AppSettings, ProviderConfig};
use crate::text::lower_of;

verus! {

/// Whether a recording is open.
#[derive(Clone, Copy, Debug, PartialEq, Eq, Structural)]
pub enum RecordingState {
    Idle,
    Recording,
}

/// A call on the lifecycle: a start, which opened a recording or not, or a stop.
#[derive(Clone, Copy, Debug, PartialEq, Eq, Structural)]
pub enum Command {
    Start { opened: bool },
    Stop,
}

/// What a hotkey release asks for in the current state.
#[derive(Clone, Copy, Debug, PartialEq, Eq, Structural)]
pub enum ToggleAction {
    /// Open a recording, on the caller's thread.
    Start,
    /// Stop and transcribe, on a worker thread of its own.
    StopAndTranscribe,
}

/// How a start that did not fail ended.
#[derive(Clone, Copy, Debug, PartialEq, Eq, Structural)]
pub enum StartStatus {
    Started,
    /// A recording was already open; nothing changed.
    AlreadyRecording,
}

/// What the caller sends once the lock is released: the recording as a WAV
/// file, the provider snapshot taken when it stopped, and the request.
#[derive(Clone, Debug)]
pub struct TranscriptionJob {
    pub audio: Vec<u8>,
    pub config: ProviderConfig,
    pub request: TranscriptionRequest,
}

/// How a stop that did not fail ended.
#[derive(Clone, Debug)]
pub enum StopOutcome {
    /// No recording was open; nothing changed and nothing is to be sent.
    NotRecording,
    Transcribe(TranscriptionJob),
}

/// The state after a command: a start that opened a recording while idle
/// begins one, a stop while recording ends it, and any other call changes
/// nothing.
pub open spec fn next_state(s: RecordingState, c: Command) -> RecordingState {
    match (s, c) {
        (RecordingState::Idle, Command::Start { opened }) => if opened {
            RecordingState::Recording
        } else {
            RecordingState::Idle
        },
        (RecordingState::Recording, Command::Stop) => RecordingState::Idle,
        _ => s,
    }
}

/// The other state.
pub open spec fn flip(s: RecordingState) -> RecordingState {
    match s {
        RecordingState::Idle => RecordingState::Recording,
        RecordingState::Recording => RecordingState::Idle,
    }
}

/// The state after a sequence of commands.
pub open spec fn run_commands(s: RecordingState, cmds: Seq<Command>) -> RecordingState
    decreases cmds.len(),
{
    if cmds.len() == 0 {
        s
    } else {
        next_state(run_commands(s, cmds.drop_last()), cmds.last())
    }
}

/// How many commands of the sequence were well-formed: a start that opened a
/// recording while idle, or a stop while recording.
pub open spec fn effective_count(s: RecordingState, cmds: Seq<Command>) -> nat
    decreases cmds.len(),
{
    if cmds.len() == 0 {
        0
    } else {
        let before = run_commands(s, cmds.drop_last());
        effective_count(s, cmds.drop_last()) + if next_state(before, cmds.last()) != before {
            1nat
        } else {
            0nat
        }
    }
}

/// After any sequence of commands the state is the initial one, flipped once
/// for each well-formed command among them.
pub proof fn lemma_state_follows_parity(s: RecordingState, cmds: Seq<Command>)
    ensures
        run_commands(s, cmds) == if effective_count(s, cmds) % 2 == 1 {
            flip(s)
        } else {
            s
        },
    decreases cmds.len(),
{
    if cmds.len() > 0 {
        lemma_state_follows_parity(s, cmds.drop_last());
    }
}

/// A start while recording and a stop while idle never change the state.
pub proof fn lemma_duplicates_change_nothing(opened: bool)
    ensures
        next_state(RecordingState::Recording, Command::Start { opened }) == RecordingState::Recording,
        next_state(RecordingState::Idle, Command::Stop) == RecordingState::Idle,
{
}

/// Whether a stop in this state hands out a transcription job.
pub open spec fn stop_transcribes(s: RecordingState) -> bool {
    s == RecordingState::Recording
}

/// Stops while idle, one after another, each find nothing to stop, leave the
/// state idle, and hand out no job to send.
pub proof fn lemma_idle_stops_are_benign(s: RecordingState)
    requires
        s == RecordingState::Idle,
    ensures
        !stop_transcribes(s),
        next_state(s, Command::Stop) == s,
        !stop_transcribes(next_state(s, Command::Stop)),
{
}

/// The shared application state: the capture sink, the settings and the
/// lifecycle flag.
pub struct AppState {
    recorder: AudioRecorder,
    settings: AppSettings,
    is_recording: bool,
}

impl AppState {
    /// A recording is open exactly while the state says so.
    pub closed spec fn wf(&self) -> bool {
        &&& self.is_recording == (self.recorder@ is Some)
        &&& well_sized(self.recorder@)
    }

    /// In a well-formed state a recording is open exactly while recording, and
    /// an open recording has a writable layout and fits in a WAV file.
    pub proof fn lemma_state_matches_recording(&self)
        requires
            self.wf(),
        ensures
            (self.state() == RecordingState::Recording) <==> (self.recording() is Some),
            well_sized(self.recording()),
    {
    }

    pub closed spec fn state(&self) -> RecordingState {
        if self.is_recording {
            RecordingState::Recording
        } else {
            RecordingState::Idle
        }
    }

    /// The open recording: its layout and the samples written so far.
    pub closed spec fn recording(&self) -> Option<(WavFormat, Seq<i16>)> {
        self.recorder@
    }

    pub closed spec fn current_settings(&self) -> AppSettings {
        self.settings
    }

    /// An idle state with the given settings.
    pub fn new(settings: AppSettings) -> (r: AppState)
        ensures
            r.wf(),
            r.state() == RecordingState::Idle,
            r.recording() is None,
            r.current_settings() == settings,
    {
        AppState { recorder: AudioRecorder::new(), settings, is_recording: false }
    }

    pub fn recording_state(&self) -> (r: RecordingState)
        ensures
            r == self.state(),
    {
        if self.is_recording {
            RecordingState::Recording
        } else {
            RecordingState::Idle
        }
    }

    pub fn is_recording(&self) -> (r: bool)
        ensures
            r == (self.state() == RecordingState::Recording),
    {
        self.is_recording
    }

    /// What a hotkey release does: start while idle, stop and transcribe while
    /// recording.
    pub fn toggle_action(&self) -> (r: ToggleAction)
        ensures
            self.state() == RecordingState::Idle ==> r == ToggleAction::Start,
            self.state() == RecordingState::Recording ==> r == ToggleAction::StopAndTranscribe,
    {
        if self.is_recording {
            ToggleAction::StopAndTranscribe
        } else {
            ToggleAction::Start
        }
    }

    pub fn settings(&self) -> (r: &AppSettings)
        ensures
            *r == self.current_settings(),
    {
        &self.settings
    }

    /// Replaces the settings; a transcription already under way keeps the
    /// snapshot it took.
    pub fn set_settings(&mut self, settings: AppSettings)
        requires
            old(self).wf(),
        ensures
            final(self).wf(),
            final(self).state() == old(self).state(),
            final(self).recording() == old(self).recording(),
            final(self).current_settings() == settings,
    {
        self.settings = settings;
    }

    /// Starts a recording with what the default input device reported, or the
    /// error met opening it. While recording this is a benign no-op that
    /// returns `AlreadyRecording`. While idle, a device error comes back as it
    /// is, a device the sink cannot take gives `UnsupportedFormat`, and either
    /// way the state stays idle; otherwise an empty recording of the device's
    /// layout is opened.
    pub fn start_recording(&mut self, device: Result<InputConfig, FlowError>) -> (r: Result<StartStatus, FlowError>)
        requires
            old(self).wf(),
        ensures
            final(self).wf(),
            final(self).current_settings() == old(self).current_settings(),
            final(self).state() == next_state(old(self).state(), Command::Start { opened: r == Ok::<StartStatus, FlowError>(StartStatus::Started) }),
            r is Err ==> final(self).recording() == old(self).recording(),
            old(self).state() == RecordingState::Recording ==> r == Ok::<StartStatus, FlowError>(StartStatus::AlreadyRecording)
                && final(self).recording() == old(self).recording(),
            old(self).state() == RecordingState::Idle ==> match device {
                Err(e) => r == Err::<StartStatus, FlowError>(e),
                Ok(c) => if accepts(c) {
                    r == Ok::<StartStatus, FlowError>(StartStatus::Started) && final(self).recording() == Some(
                        (WavFormat { channels: c.channels, sample_rate: c.sample_rate }, Seq::<i16>::empty()),
                    )
                } else {
                    r == Err::<StartStatus, FlowError>(FlowError::UnsupportedFormat)
                },
            },
    {
        if self.is_recording {
            return Ok(StartStatus::AlreadyRecording);
        }
        let config = match device {
            Err(e) => return Err(e),
            Ok(c) => c,
        };
        match self.recorder.start(config) {
            Err(e) => Err(e),
            Ok(()) => {
                self.is_recording = true;
                Ok(StartStatus::Started)
            },
        }
    }

    /// Hands a frame of scaled samples from the capture callback to the open
    /// recording, clamped; without one the frame is dropped.
    pub fn record_samples(&mut self, frame: &[i32])
        requires
            old(self).wf(),
        ensures
            final(self).wf(),
            final(self).state() == old(self).state(),
            final(self).current_settings() == old(self).current_settings(),
            final(self).recording() == after_write(old(self).recording(), frame@),
    {
        self.recorder.write_samples(frame);
    }

    /// Stops the recording and prepares its transcription. While idle this is
    /// a benign no-op that returns `NotRecording`. While recording the
    /// follows; then a recording that ends inside a frame gives `IoError`, an empty API key
    /// follows; then an encoding failure gives `IoError`, an empty API key
    /// `ConfigMissing`, and otherwise the job for the provider snapshot taken
    /// now comes back.
    pub fn stop_and_prepare(&mut self) -> (r: Result<StopOutcome, FlowError>)
        requires
            old(self).wf(),
        ensures
            final(self).wf(),
            final(self).current_settings() == old(self).current_settings(),
            final(self).state() == next_state(old(self).state(), Command::Stop),
            final(self).recording() is None,
            r matches Ok(StopOutcome::Transcribe(_)) ==> stop_transcribes(old(self).state()),
            !stop_transcribes(old(self).state()) ==> r matches Ok(StopOutcome::NotRecording),
            old(self).recording() matches Some((f, s)) ==> {
                let cfg = old(self).current_settings();
                match r {
                    Ok(StopOutcome::NotRecording) => false,
                    Ok(StopOutcome::Transcribe(job)) => {
                        &&& cfg.api_key@.len() > 0
                        &&& wav_layout(job.audio@, f, s)
                        &&& job.config.api_key@ == cfg.api_key@
                        &&& job.config.provider@ == cfg.provider@
                        &&& job.config.model@ == cfg.model@
                        &&& job.request.url@ == base_url_of(lower_of(cfg.provider@)) + "/audio/transcriptions"@
                        &&& job.request.authorization@ == "Bearer "@ + cfg.api_key@
                        &&& job.request.model@ == cfg.model@
                    },
                    Err(e) => e == FlowError::IoError || (e == FlowError::ConfigMissing && cfg.api_key@.len() == 0),
                }
            },
            old(self).state() == RecordingState::Recording && old(self).current_settings().api_key@.len() == 0 ==> r is Err,
            old(self).recording() matches Some((f, s)) ==> if s.len() % (f.channels as nat) == 0 {
                if old(self).current_settings().api_key@.len() > 0 {
                    r matches Ok(StopOutcome::Transcribe(_))
                } else {
                    r matches Err(FlowError::ConfigMissing)
                }
            } else {
                r matches Err(FlowError::IoError)
            },
    {
        if !self.is_recording {
            return Ok(StopOutcome::NotRecording);
        }
        let stopped = self.recorder.stop();
        self.is_recording = false;
        let audio = match stopped {
            Ok(Some(bytes)) => bytes,
            Ok(None) => return Err(FlowError::IoError),
            Err(e) => return Err(e),
        };
        let config = self.settings.provider_config();
        if config.api_key.as_str().unicode_len() == 0 {
            return Err(FlowError::ConfigMissing);
        }
        let base_url = provider_base_url(config.provider.as_str());
        let request = build_request(config.api_key.as_str(), config.model.as_str(), base_url);
        Ok(StopOutcome::Transcribe(TranscriptionJob { audio, config, request }))
    }
}

} // verus!
