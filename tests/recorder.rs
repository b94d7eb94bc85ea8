use scribe::capture::{CaptureConfig, Conversion, SampleBuffer, SampleFormat};
use scribe::error::Error;
use scribe::recorder::AudioRecorder;
use std::cell::Cell;

fn cfg(format: SampleFormat) -> CaptureConfig {
    CaptureConfig { sample_rate: 48000, channels: 2, format }
}

fn open_recorder() -> AudioRecorder<&'static str, u32> {
    AudioRecorder::new("mic", cfg(SampleFormat::F32), |_d: &&str, _c: &CaptureConfig| Ok(10)).unwrap()
}

#[test]
fn start_discards_stale_samples() {
    let rec = open_recorder();
    let mut buffer: SampleBuffer<f32> = SampleBuffer::new();
    rec.start(&mut buffer);
    buffer.capture(&[0.1, 0.2, 0.3]);
    let _ = rec.stop(&mut buffer);
    buffer.start();
    buffer.capture(&[0.9]);
    rec.start(&mut buffer);
    assert_eq!(buffer.len(), 0);
    buffer.capture(&[0.5, 0.6]);
    assert_eq!(rec.stop(&mut buffer), vec![0.5, 0.6]);
}

#[test]
fn stop_without_start_is_empty() {
    let rec = open_recorder();
    let mut buffer: SampleBuffer<f32> = SampleBuffer::new();
    buffer.capture(&[0.4, 0.4]);
    assert!(rec.stop(&mut buffer).is_empty());
    rec.start(&mut buffer);
    buffer.capture(&[0.25]);
    assert_eq!(rec.stop(&mut buffer), vec![0.25]);
    buffer.capture(&[0.75]);
    assert!(rec.stop(&mut buffer).is_empty());
}

#[test]
fn capture_only_while_recording() {
    let mut buffer: SampleBuffer<i16> = SampleBuffer::new();
    assert!(!buffer.is_recording());
    buffer.capture(&[1, 2]);
    assert_eq!(buffer.len(), 0);
    buffer.start();
    buffer.capture(&[1, 2]);
    buffer.capture(&[3]);
    assert_eq!(buffer.snapshot(), vec![1, 2, 3]);
    buffer.halt();
    buffer.capture(&[4]);
    assert_eq!(buffer.snapshot(), vec![1, 2, 3]);
    buffer.clear();
    assert_eq!(buffer.len(), 0);
}

#[test]
fn mute_twice_stays_muted() {
    let mut rec = open_recorder();
    let mut buffer: SampleBuffer<f32> = SampleBuffer::new();
    rec.start(&mut buffer);
    rec.mute(&mut buffer);
    assert!(rec.is_muted());
    assert!(!buffer.is_recording());
    rec.mute(&mut buffer);
    assert!(rec.is_muted());
}

#[test]
fn unmute_twice_opens_once() {
    let mut rec = open_recorder();
    let mut buffer: SampleBuffer<f32> = SampleBuffer::new();
    rec.mute(&mut buffer);
    let calls = Cell::new(0);
    let opener = |_d: &&str, _c: &CaptureConfig| {
        calls.set(calls.get() + 1);
        Ok(11)
    };
    rec.unmute(opener).unwrap();
    assert!(!rec.is_muted());
    rec.unmute(opener).unwrap();
    assert!(!rec.is_muted());
    assert_eq!(calls.get(), 1);
}

#[test]
fn failed_unmute_stays_muted() {
    let mut rec = open_recorder();
    let mut buffer: SampleBuffer<f32> = SampleBuffer::new();
    rec.mute(&mut buffer);
    let r = rec.unmute(|_d: &&str, _c: &CaptureConfig| Err(Error::Audio("busy".to_string())));
    assert!(matches!(r, Err(Error::Audio(ref m)) if m == "busy"));
    assert!(rec.is_muted());
}

#[test]
fn unsupported_format_is_refused_before_opening() {
    let r: Result<AudioRecorder<&str, u32>, Error> =
        AudioRecorder::new("mic", cfg(SampleFormat::Other), |_d: &&str, _c: &CaptureConfig| {
            panic!("must not open")
        });
    match r {
        Err(Error::Audio(m)) => assert_eq!(m, "unsupported sample format"),
        _ => panic!("expected an audio error"),
    }
}

#[test]
fn switch_while_muted_stays_muted() {
    let mut rec = open_recorder();
    let mut buffer: SampleBuffer<f32> = SampleBuffer::new();
    rec.start(&mut buffer);
    buffer.capture(&[0.1]);
    rec.mute(&mut buffer);
    let next = CaptureConfig { sample_rate: 16000, channels: 1, format: SampleFormat::I32 };
    rec.set_device(&mut buffer, "other", next, |_d: &&str, _c: &CaptureConfig| panic!("stays closed"))
        .unwrap();
    assert!(rec.is_muted());
    assert_eq!(buffer.len(), 0);
    assert_eq!(rec.config(), next);
}

#[test]
fn switch_clears_buffer_and_flag() {
    let mut rec = open_recorder();
    let mut buffer: SampleBuffer<f32> = SampleBuffer::new();
    rec.start(&mut buffer);
    buffer.capture(&[0.1, 0.2]);
    rec.set_device(&mut buffer, "other", cfg(SampleFormat::I16), |_d: &&str, _c: &CaptureConfig| Ok(3))
        .unwrap();
    assert!(!rec.is_muted());
    assert!(!buffer.is_recording());
    assert_eq!(buffer.len(), 0);
}

#[test]
fn failed_switch_leaves_recorder_closed() {
    let mut rec = open_recorder();
    let mut buffer: SampleBuffer<f32> = SampleBuffer::new();
    let r = rec.set_device(&mut buffer, "other", cfg(SampleFormat::I16), |_d: &&str, _c: &CaptureConfig| {
        Err(Error::Audio("gone".to_string()))
    });
    assert!(r.is_err());
    assert!(rec.is_muted());
}

#[test]
fn conversion_plan() {
    let stereo = CaptureConfig { sample_rate: 48000, channels: 2, format: SampleFormat::F32 };
    assert_eq!(stereo.conversion(), Conversion { mix_down: true, resample: true });
    let mono16k = CaptureConfig { sample_rate: 16000, channels: 1, format: SampleFormat::I16 };
    assert_eq!(mono16k.conversion(), Conversion { mix_down: false, resample: false });
    assert!(SampleFormat::I32.check_supported().is_ok());
    assert!(SampleFormat::Other.check_supported().is_err());
}
