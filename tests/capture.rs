use std::io::Cursor;
use whisper_flow::capture::{clamp_sample, AudioRecorder, InputConfig, SampleFormat, MAX_SAMPLES};
use whisper_flow::error::FlowError;

fn float_input(channels: u16, sample_rate: u32) -> InputConfig {
    InputConfig { format: SampleFormat::F32, channels, sample_rate }
}

fn read_back(bytes: Vec<u8>) -> (hound::WavSpec, Vec<i16>) {
    let reader = hound::WavReader::new(Cursor::new(bytes)).expect("a readable WAV file");
    let spec = reader.spec();
    let samples = reader.into_samples::<i16>().map(|s| s.unwrap()).collect();
    (spec, samples)
}

#[test]
fn start_then_stop_gives_empty_wav() {
    let mut rec = AudioRecorder::new();
    assert_eq!(rec.start(float_input(2, 48000)), Ok(()));
    assert!(rec.is_open());
    let bytes = rec.stop().unwrap().expect("a file");
    assert!(!rec.is_open());
    assert_eq!(bytes.len(), 44);
    assert_eq!(&bytes[0..4], b"RIFF");
    assert_eq!(&bytes[8..12], b"WAVE");
    let (spec, samples) = read_back(bytes);
    assert_eq!(spec.channels, 2);
    assert_eq!(spec.sample_rate, 48000);
    assert_eq!(spec.bits_per_sample, 16);
    assert_eq!(spec.sample_format, hound::SampleFormat::Int);
    assert!(samples.is_empty());
}

#[test]
fn many_channels_use_extensible_header() {
    let mut rec = AudioRecorder::new();
    assert_eq!(rec.start(float_input(4, 16000)), Ok(()));
    rec.write_samples(&[1, 2, 3, 4]);
    let bytes = rec.stop().unwrap().expect("a file");
    assert_eq!(bytes.len(), 68 + 8);
    let (spec, samples) = read_back(bytes);
    assert_eq!(spec.channels, 4);
    assert_eq!(spec.sample_rate, 16000);
    assert_eq!(samples, vec![1, 2, 3, 4]);
}

#[test]
fn samples_are_clamped_not_wrapped() {
    let mut rec = AudioRecorder::new();
    rec.start(float_input(1, 44100)).unwrap();
    rec.write_samples(&[40000, -40000, 32767, -32767, -32768, 0, 123, i32::MAX, i32::MIN]);
    let (_, samples) = read_back(rec.stop().unwrap().unwrap());
    assert_eq!(samples, vec![32767, -32768, 32767, -32767, -32768, 0, 123, 32767, -32768]);
}

#[test]
fn clamping_law() {
    assert_eq!(clamp_sample(32768), 32767);
    assert_eq!(clamp_sample(1_000_000), 32767);
    assert_eq!(clamp_sample(-32768), -32768);
    assert_eq!(clamp_sample(-32769), -32768);
    assert_eq!(clamp_sample(-1_000_000), -32768);
    assert_eq!(clamp_sample(i32::MIN), -32768);
    assert_eq!(clamp_sample(-5), -5);
}

#[test]
fn only_float_devices_are_taken() {
    let mut rec = AudioRecorder::new();
    for format in [SampleFormat::I16, SampleFormat::U16, SampleFormat::I32, SampleFormat::F64] {
        let c = InputConfig { format, channels: 1, sample_rate: 44100 };
        assert_eq!(rec.start(c), Err(FlowError::UnsupportedFormat));
        assert!(!rec.is_open());
    }
    assert_eq!(rec.start(float_input(0, 44100)), Err(FlowError::UnsupportedFormat));
    assert_eq!(rec.start(float_input(1, 0)), Err(FlowError::UnsupportedFormat));
    assert_eq!(rec.start(float_input(u16::MAX, u32::MAX)), Err(FlowError::UnsupportedFormat));
}

#[test]
fn stop_without_recording_is_a_no_op() {
    let mut rec = AudioRecorder::new();
    assert_eq!(rec.stop(), Ok(None));
    rec.write_samples(&[1, 2, 3]);
    assert_eq!(rec.stop(), Ok(None));
    rec.start(float_input(1, 8000)).unwrap();
    assert!(rec.stop().unwrap().is_some());
    assert_eq!(rec.stop(), Ok(None));
}

#[test]
fn unfinished_frame_is_an_io_error() {
    let mut rec = AudioRecorder::new();
    rec.start(float_input(2, 8000)).unwrap();
    rec.write_samples(&[1, 2, 3]);
    assert_eq!(rec.stop(), Err(FlowError::IoError));
    assert!(!rec.is_open());
}

#[test]
fn capacity_bound() {
    assert_eq!(MAX_SAMPLES, 2147483613);
}
