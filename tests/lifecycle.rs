use whisper_flow::capture::{InputConfig, SampleFormat};
use whisper_flow::error::FlowError;
use whisper_flow::lifecycle::{AppState, RecordingState, StartStatus, StopOutcome, ToggleAction};
use whisper_flow::settings::AppSettings;

fn settings(key: &str, provider: &str) -> AppSettings {
    let mut s = AppSettings::defaults(false);
    s.api_key = key.to_string();
    s.provider = provider.to_string();
    s
}

fn device() -> Result<InputConfig, FlowError> {
    Ok(InputConfig { format: SampleFormat::F32, channels: 1, sample_rate: 16000 })
}

#[test]
fn idle_stops_are_benign() {
    let mut app = AppState::new(settings("k", "groq"));
    assert!(matches!(app.stop_and_prepare(), Ok(StopOutcome::NotRecording)));
    assert!(matches!(app.stop_and_prepare(), Ok(StopOutcome::NotRecording)));
    assert_eq!(app.recording_state(), RecordingState::Idle);
}

#[test]
fn duplicate_starts_are_absorbed() {
    let mut app = AppState::new(settings("k", "groq"));
    assert_eq!(app.start_recording(device()), Ok(StartStatus::Started));
    assert!(app.is_recording());
    assert_eq!(app.start_recording(device()), Ok(StartStatus::AlreadyRecording));
    assert_eq!(app.start_recording(Err(FlowError::DeviceUnavailable)), Ok(StartStatus::AlreadyRecording));
    assert_eq!(app.recording_state(), RecordingState::Recording);
}

#[test]
fn failed_start_stays_idle() {
    let mut app = AppState::new(settings("k", "groq"));
    assert_eq!(app.start_recording(Err(FlowError::DeviceUnavailable)), Err(FlowError::DeviceUnavailable));
    assert_eq!(app.recording_state(), RecordingState::Idle);
    let int_device = Ok(InputConfig { format: SampleFormat::I16, channels: 1, sample_rate: 16000 });
    assert_eq!(app.start_recording(int_device), Err(FlowError::UnsupportedFormat));
    assert_eq!(app.recording_state(), RecordingState::Idle);
}

#[test]
fn stop_hands_out_the_job() {
    let mut app = AppState::new(settings("sk-9", "Grok"));
    app.start_recording(device()).unwrap();
    app.record_samples(&[5, -5, 70000]);
    let job = match app.stop_and_prepare() {
        Ok(StopOutcome::Transcribe(job)) => job,
        _ => panic!("expected a job"),
    };
    assert_eq!(app.recording_state(), RecordingState::Idle);
    assert_eq!(job.request.url, "https://api.x.ai/v1/audio/transcriptions");
    assert_eq!(job.request.authorization, "Bearer sk-9");
    assert_eq!(job.request.model, "whisper-large-v3");
    assert_eq!(job.config.provider, "Grok");
    assert_eq!(job.audio.len(), 44 + 6);
    assert_eq!(&job.audio[44..], &[5, 0, 0xfb, 0xff, 0xff, 0x7f]);
    assert!(matches!(app.stop_and_prepare(), Ok(StopOutcome::NotRecording)));
}

#[test]
fn unfinished_frame_still_stops() {
    let mut app = AppState::new(settings("k", "groq"));
    let stereo = Ok(InputConfig { format: SampleFormat::F32, channels: 2, sample_rate: 16000 });
    app.start_recording(stereo).unwrap();
    app.record_samples(&[1, 2, 3]);
    assert!(matches!(app.stop_and_prepare(), Err(FlowError::IoError)));
    assert_eq!(app.recording_state(), RecordingState::Idle);
}

#[test]
fn missing_key_still_stops() {
    let mut app = AppState::new(settings("", "groq"));
    app.start_recording(device()).unwrap();
    assert!(matches!(app.stop_and_prepare(), Err(FlowError::ConfigMissing)));
    assert_eq!(app.recording_state(), RecordingState::Idle);
    assert_eq!(app.start_recording(device()), Ok(StartStatus::Started));
}

#[test]
fn settings_snapshot_is_taken_at_stop() {
    let mut app = AppState::new(settings("a", "groq"));
    app.start_recording(device()).unwrap();
    let job = match app.stop_and_prepare() {
        Ok(StopOutcome::Transcribe(job)) => job,
        _ => panic!("expected a job"),
    };
    app.set_settings(settings("b", "foo"));
    assert_eq!(job.config.api_key, "a");
    assert_eq!(job.request.url, "https://api.groq.com/openai/v1/audio/transcriptions");
    assert_eq!(app.settings().api_key, "b");
}

#[test]
fn toggles_follow_parity() {
    let mut app = AppState::new(settings("k", "groq"));
    // 's' starts with a working device, 'f' with a failing one, 'x' stops.
    let calls = "ssxxfsxsfsxx";
    let mut well_formed = 0;
    for c in calls.chars() {
        let before = app.recording_state();
        match c {
            's' => {
                app.start_recording(device()).ok();
            }
            'f' => {
                app.start_recording(Err(FlowError::DeviceUnavailable)).ok();
            }
            _ => {
                app.stop_and_prepare().ok();
            }
        }
        if app.recording_state() != before {
            well_formed += 1;
        }
    }
    assert_eq!(well_formed, 6);
    assert_eq!(app.recording_state(), RecordingState::Idle);
    app.start_recording(device()).ok();
    assert_eq!(app.toggle_action(), ToggleAction::StopAndTranscribe);
    app.stop_and_prepare().ok();
    assert_eq!(app.toggle_action(), ToggleAction::Start);
}
