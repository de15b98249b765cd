use parrot::{encode_wav, DeviceConfig, EncodingError, RecorderError, RecorderState};

fn quantize(s: f32) -> i16 {
    (s * 32767.0).round().clamp(-32768.0, 32767.0) as i16
}

fn le32(x: u32) -> Vec<u8> {
    x.to_le_bytes().to_vec()
}

#[test]
fn container_has_canonical_header_and_samples() {
    let bytes = encode_wav(&vec![0, 1, -1, 32767, -32768], 16000).unwrap();
    let mut expected: Vec<u8> = Vec::new();
    expected.extend_from_slice(b"RIFF");
    expected.extend(le32(36 + 10));
    expected.extend_from_slice(b"WAVE");
    expected.extend_from_slice(b"fmt ");
    expected.extend(le32(16));
    expected.extend_from_slice(&[1, 0, 1, 0]);
    expected.extend(le32(16000));
    expected.extend(le32(32000));
    expected.extend_from_slice(&[2, 0, 16, 0]);
    expected.extend_from_slice(b"data");
    expected.extend(le32(10));
    expected.extend_from_slice(&[0, 0, 1, 0, 0xff, 0xff, 0xff, 0x7f, 0x00, 0x80]);
    assert_eq!(bytes, expected);
}

#[test]
fn empty_recording_is_a_bare_header() {
    let bytes = encode_wav(&Vec::new(), 44100).unwrap();
    assert_eq!(bytes.len(), 44);
    assert_eq!(&bytes[40..44], &[0, 0, 0, 0]);
}

#[test]
fn zero_rate_is_rejected() {
    assert_eq!(encode_wav(&vec![1, 2], 0), Err(EncodingError::UnsupportedRate));
    assert_eq!(encode_wav(&vec![1, 2], 3_000_000_000), Err(EncodingError::UnsupportedRate));
}

#[test]
fn pcm_round_trip_is_within_one_step() {
    let input: Vec<f32> = vec![-1.0, -0.75, -0.333, -0.00001, 0.0, 0.00002, 0.5, 0.9999, 1.0];
    let pcm: Vec<i16> = input.iter().map(|s| quantize(*s)).collect();
    let bytes = encode_wav(&pcm, 22050).unwrap();
    let mut reader = hound::WavReader::new(std::io::Cursor::new(bytes)).unwrap();
    let spec = reader.spec();
    assert_eq!(spec.channels, 1);
    assert_eq!(spec.sample_rate, 22050);
    assert_eq!(spec.bits_per_sample, 16);
    let decoded: Vec<i16> = reader.samples::<i16>().map(|s| s.unwrap()).collect();
    assert_eq!(decoded.len(), input.len());
    for (orig, d) in input.iter().zip(decoded.iter()) {
        let back = *d as f32 / 32767.0;
        assert!((back - orig).abs() <= 1.0 / 32767.0);
    }
}

fn device() -> Option<DeviceConfig> {
    Some(DeviceConfig { sample_rate: 48000, channels: 2 })
}

#[test]
fn start_twice_keeps_one_session() {
    let mut state = RecorderState::new();
    assert_eq!(state.start_recording(device(), 100), Ok(true));
    assert_eq!(state.start_recording(Some(DeviceConfig { sample_rate: 8000, channels: 1 }), 250), Ok(false));
    assert!(state.is_recording());
    assert_eq!(state.sample_rate(), 48000);
    assert_eq!(state.channels(), 2);
    let rec = state.stop_recording(&vec![0, 0], 400).unwrap();
    assert_eq!(rec.duration_ms, 300);
}

#[test]
fn stop_while_idle_is_rejected_and_keeps_last() {
    let mut state = RecorderState::new();
    assert_eq!(state.stop_recording(&vec![1], 10), Err(RecorderError::NotRecording));
    assert_eq!(state.last_recording(), None);
    state.start_recording(device(), 0).unwrap();
    let rec = state.stop_recording(&vec![5, -5], 1500).unwrap();
    assert_eq!(rec.duration_ms, 1500);
    assert_eq!(rec.wav.len(), 48);
    assert_eq!(state.stop_recording(&vec![7], 2000), Err(RecorderError::NotRecording));
    assert_eq!(state.last_recording(), Some(rec));
}

#[test]
fn missing_device_is_a_device_error() {
    let mut state = RecorderState::new();
    assert_eq!(state.start_recording(None, 0), Err(RecorderError::Device));
    assert_eq!(
        state.start_recording(Some(DeviceConfig { sample_rate: 44100, channels: 0 }), 0),
        Err(RecorderError::Device)
    );
    assert!(!state.is_recording());
}

#[test]
fn clock_going_backwards_gives_zero_duration() {
    let mut state = RecorderState::new();
    state.start_recording(device(), 500).unwrap();
    let rec = state.stop_recording(&Vec::new(), 100).unwrap();
    assert_eq!(rec.duration_ms, 0);
}

#[test]
fn recording_uses_the_device_rate() {
    let mut state = RecorderState::new();
    state.start_recording(Some(DeviceConfig { sample_rate: 44100, channels: 1 }), 0).unwrap();
    let rec = state.stop_recording(&vec![1], 20).unwrap();
    assert_eq!(&rec.wav[24..28], &44100u32.to_le_bytes());
}

#[test]
fn new_recording_replaces_the_last() {
    let mut state = RecorderState::new();
    state.start_recording(device(), 0).unwrap();
    state.stop_recording(&vec![1], 10).unwrap();
    state.start_recording(device(), 20).unwrap();
    let second = state.stop_recording(&vec![2, 3], 50).unwrap();
    assert_eq!(second.duration_ms, 30);
    assert_eq!(state.last_recording(), Some(second));
}
