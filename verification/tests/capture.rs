use wisprarch::analyzer::Reading;
use wisprarch::capture::{AudioStreamManager, CaptureError, CaptureErrorKind, RecordingState};
use wisprarch::status::NUM_BANDS;

fn reading(level: u16, band: u16) -> Reading {
    Reading { sample_rate: 16000, chunk_len: 256, level, bands: [band; NUM_BANDS] }
}

fn recording(limit: usize) -> AudioStreamManager<f32> {
    let mut m: AudioStreamManager<f32> = AudioStreamManager::new(limit);
    assert_eq!(m.begin_start(), Ok(()));
    assert_eq!(m.finish_start(Ok(())), Ok(()));
    assert_eq!(m.state(), RecordingState::Recording);
    m
}

#[test]
fn stop_without_samples_reports_an_empty_capture_and_ends_idle() {
    let mut m = recording(1000);
    assert_eq!(m.begin_stop(), Ok(()));
    assert_eq!(m.state(), RecordingState::Stopping);
    assert_eq!(m.drain(), Err(CaptureError::EmptyCapture));
    assert_eq!(m.state(), RecordingState::Idle);
    assert_eq!(m.begin_start(), Ok(()));
}

#[test]
fn a_recording_hands_its_samples_over_in_order() {
    let mut m = recording(1000);
    m.deliver(&[0.1, 0.2]);
    m.deliver(&[]);
    m.deliver(&[0.3]);
    assert_eq!(m.sample_count(), 3);
    assert_eq!(m.begin_stop(), Ok(()));
    // Chunks that come while the stream is being closed still count.
    m.deliver(&[0.4]);
    assert_eq!(m.drain(), Ok(vec![0.1, 0.2, 0.3, 0.4]));
    assert_eq!(m.state(), RecordingState::Stopping);
    assert_eq!(m.sample_count(), 0);
    assert_eq!(m.finish_stop(Ok("/tmp/out.wav".to_string())), Ok("/tmp/out.wav".to_string()));
    assert_eq!(m.state(), RecordingState::Idle);
}

#[test]
fn a_failed_write_still_ends_idle() {
    let mut m = recording(1000);
    m.deliver(&[0.5; 16]);
    m.begin_stop().unwrap();
    assert_eq!(m.drain().unwrap().len(), 16);
    let r = m.finish_stop(Err("disk full".to_string()));
    assert_eq!(r, Err(CaptureError::Persist("disk full".to_string())));
    assert_eq!(r.unwrap_err().kind(), CaptureErrorKind::PersistError);
    assert_eq!(m.state(), RecordingState::Idle);
    assert_eq!(m.sample_count(), 0);
    assert_eq!(m.begin_start(), Ok(()));
}

#[test]
fn start_is_refused_unless_idle() {
    let mut m: AudioStreamManager<i16> = AudioStreamManager::new(10);
    assert_eq!(m.begin_start(), Ok(()));
    assert_eq!(m.begin_start(), Err(CaptureError::AlreadyRecording));
    assert_eq!(m.finish_start(Ok(())), Ok(()));
    assert_eq!(m.begin_start(), Err(CaptureError::AlreadyRecording));
    assert_eq!(m.finish_start(Ok(())), Err(CaptureError::OutOfTurn));
    m.deliver(&[1, 2, 3]);
    m.begin_stop().unwrap();
    assert_eq!(m.begin_start(), Err(CaptureError::StillStopping));
    assert_eq!(m.begin_stop(), Err(CaptureError::AlreadyStopping));
    m.drain().unwrap();
    assert_eq!(m.begin_start(), Err(CaptureError::StillStopping));
    m.finish_stop(Ok("f".to_string())).unwrap();
    assert_eq!(m.begin_start(), Ok(()));
}

#[test]
fn a_stream_that_does_not_open_leaves_the_manager_idle() {
    let mut m: AudioStreamManager<f32> = AudioStreamManager::new(10);
    m.begin_start().unwrap();
    let r = m.finish_start(Err("device busy".to_string()));
    assert_eq!(r, Err(CaptureError::Device("device busy".to_string())));
    assert_eq!(m.state(), RecordingState::Idle);
    m.deliver(&[1.0, 2.0]);
    assert_eq!(m.sample_count(), 0);
    assert_eq!(m.begin_stop(), Err(CaptureError::NotRecording));
    assert_eq!(m.begin_start(), Ok(()));
}

#[test]
fn steps_out_of_turn_are_refused() {
    let mut m: AudioStreamManager<f32> = AudioStreamManager::new(10);
    assert_eq!(m.begin_stop(), Err(CaptureError::NotRecording));
    assert_eq!(m.drain(), Err(CaptureError::OutOfTurn));
    assert_eq!(m.finish_stop(Ok("x".to_string())), Err(CaptureError::OutOfTurn));
    assert_eq!(m.finish_start(Ok(())), Err(CaptureError::OutOfTurn));
    assert_eq!(m.state(), RecordingState::Idle);
    let mut m = recording(10);
    assert_eq!(m.drain(), Err(CaptureError::OutOfTurn));
    assert_eq!(m.finish_stop(Ok("x".to_string())), Err(CaptureError::OutOfTurn));
    assert_eq!(m.state(), RecordingState::Recording);
    m.begin_stop().unwrap();
    assert_eq!(m.finish_stop(Ok("x".to_string())), Err(CaptureError::OutOfTurn));
    assert_eq!(m.state(), RecordingState::Stopping);
}

#[test]
fn samples_over_the_limit_are_dropped() {
    let mut m: AudioStreamManager<u8> = AudioStreamManager::new(5);
    m.begin_start().unwrap();
    m.finish_start(Ok(())).unwrap();
    m.deliver(&[1, 2, 3]);
    m.deliver(&[4, 5, 6, 7]);
    m.deliver(&[8]);
    assert_eq!(m.sample_count(), 5);
    m.begin_stop().unwrap();
    assert_eq!(m.drain(), Ok(vec![1, 2, 3, 4, 5]));
}

#[test]
fn a_new_recording_starts_without_the_samples_of_the_last() {
    let mut m = recording(100);
    m.deliver(&[1.0, 2.0]);
    m.measure(&reading(900, 500));
    assert!(m.get_audio_level() > 0);
    m.begin_stop().unwrap();
    m.drain().unwrap();
    m.finish_stop(Ok("f".to_string())).unwrap();
    m.begin_start().unwrap();
    assert_eq!(m.get_audio_level(), 0);
    assert_eq!(m.get_frequency_bands(), [0; NUM_BANDS]);
    m.finish_start(Ok(())).unwrap();
    m.deliver(&[3.0]);
    m.begin_stop().unwrap();
    assert_eq!(m.drain(), Ok(vec![3.0]));
}

#[test]
fn reset_brings_the_levels_of_the_manager_back_to_silence() {
    let mut m = recording(100);
    m.measure(&reading(1000, 1000));
    m.measure(&reading(1000, 1000));
    assert_eq!(m.get_audio_level(), 510);
    assert_eq!(m.get_frequency_bands(), [960; NUM_BANDS]);
    m.reset();
    assert_eq!(m.get_audio_level(), 0);
    assert_eq!(m.get_frequency_bands(), [0; NUM_BANDS]);
    assert_eq!(m.state(), RecordingState::Recording);
}

#[test]
fn levels_are_measured_only_while_the_stream_is_open() {
    let mut m: AudioStreamManager<f32> = AudioStreamManager::new(10);
    m.measure(&reading(1000, 1000));
    assert_eq!(m.get_audio_level(), 0);
    assert_eq!(m.get_frequency_bands(), [0; NUM_BANDS]);
}

#[test]
fn capture_errors_have_their_kind_and_message() {
    let cases = [
        (CaptureError::AlreadyRecording, CaptureErrorKind::StateConflict, "Recording already in progress"),
        (CaptureError::StillStopping, CaptureErrorKind::StateConflict, "Previous recording still stopping"),
        (CaptureError::NotRecording, CaptureErrorKind::StateConflict, "No recording in progress"),
        (CaptureError::AlreadyStopping, CaptureErrorKind::StateConflict, "Recording already stopping"),
        (CaptureError::OutOfTurn, CaptureErrorKind::StateConflict, "Capture step out of turn"),
        (CaptureError::EmptyCapture, CaptureErrorKind::EmptyCapture, "No audio samples recorded"),
        (CaptureError::Device("no mic".to_string()), CaptureErrorKind::DeviceError, "no mic"),
        (CaptureError::Persist("no disk".to_string()), CaptureErrorKind::PersistError, "no disk"),
    ];
    for (error, kind, message) in cases {
        assert_eq!(error.kind(), kind);
        assert_eq!(error.message(), message);
    }
}

#[test]
fn an_empty_chunk_raises_no_level_of_the_manager() {
    let mut m = recording(100);
    m.measure(&reading(1000, 1000));
    assert_eq!(m.get_audio_level(), 300);
    assert_eq!(m.get_frequency_bands(), [800; NUM_BANDS]);
    let empty = Reading { sample_rate: 16000, chunk_len: 0, level: 1000, bands: [1000; NUM_BANDS] };
    m.measure(&empty);
    assert_eq!(m.get_audio_level(), 300);
    assert_eq!(m.get_frequency_bands(), [400; NUM_BANDS]);
    m.deliver(&[]);
    assert_eq!(m.sample_count(), 0);
}
