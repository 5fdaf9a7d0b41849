use windows_record::{
    AudioSource, EncodedChunk, Recorder, RecorderConfig, RecorderConfigBuilder, RecorderError,
    RecorderState, Resource, StartReport, StreamTag, VideoEncoder, VideoEncoderType,
};

fn encoders() -> Vec<VideoEncoder> {
    vec![
        VideoEncoder { name: "x264".to_string(), encoder_type: VideoEncoderType::Software },
        VideoEncoder { name: "nvenc".to_string(), encoder_type: VideoEncoderType::Hardware },
    ]
}

fn all_ready() -> StartReport {
    StartReport { target_found: true, desktop_audio_ready: true, microphone_ready: true, encoder_ready: true }
}

fn desktop_config() -> RecorderConfig {
    RecorderConfigBuilder::new()
        .fps(30, 1)
        .capture_audio(true)
        .audio_source(AudioSource::Desktop)
        .output_path("out.mp4")
        .build()
        .unwrap()
}

#[test]
fn new_picks_hardware_encoder() {
    let r = Recorder::new(desktop_config(), &encoders()).unwrap();
    assert_eq!(r.encoder().name, "nvenc");
    assert_eq!(r.state(), RecorderState::Idle);
    assert!(r.open_handles().is_empty());
    assert_eq!(r.process_name(), None);
}

#[test]
fn new_without_encoder_fails() {
    let r = Recorder::new(desktop_config(), &Vec::new());
    assert_eq!(r.err().map(|_| ()), Some(()));
    let r = Recorder::new(desktop_config(), &Vec::new());
    match r {
        Err(e) => assert_eq!(e, RecorderError::EncoderInitFailed),
        Ok(_) => panic!("a recorder without encoder"),
    }
}

#[test]
fn preferred_encoder_of_category() {
    let sw = Recorder::preferred_encoder(&encoders(), VideoEncoderType::Software).unwrap();
    assert_eq!(sw.name, "x264");
    let only_sw = vec![VideoEncoder { name: "x264".to_string(), encoder_type: VideoEncoderType::Software }];
    assert!(Recorder::preferred_encoder(&only_sw, VideoEncoderType::Hardware).is_none());
}

#[test]
fn process_name_binds_before_start() {
    let r = Recorder::new(desktop_config(), &encoders()).unwrap().with_process_name("game.exe");
    assert_eq!(r.process_name(), Some("game.exe"));
}

#[test]
fn process_name_ignored_after_start() {
    let mut r = Recorder::new(desktop_config(), &encoders()).unwrap();
    r.start_recording(&all_ready()).unwrap();
    let r = r.with_process_name("game.exe");
    assert_eq!(r.process_name(), None);
}

#[test]
fn thirty_fps_desktop_session() {
    let mut r = Recorder::new(desktop_config(), &encoders()).unwrap();
    assert_eq!(r.start_recording(&all_ready()), Ok(()));
    assert_eq!(r.state(), RecorderState::Recording);
    assert_eq!(
        r.open_handles(),
        vec![Resource::CaptureSession, Resource::DesktopLoopback, Resource::EncoderSession]
    );
    assert_eq!(r.config().frame_interval_us(), 33_333);
    let (released, result) = r.stop_recording(true);
    assert_eq!(result, Ok(()));
    assert_eq!(
        released,
        vec![Resource::EncoderSession, Resource::DesktopLoopback, Resource::CaptureSession]
    );
    assert_eq!(r.state(), RecorderState::Stopped);
    assert!(r.open_handles().is_empty());
}

#[test]
fn second_start_is_already_recording() {
    let mut r = Recorder::new(desktop_config(), &encoders()).unwrap();
    r.start_recording(&all_ready()).unwrap();
    assert_eq!(r.start_recording(&all_ready()), Err(RecorderError::AlreadyRecording));
    assert_eq!(r.state(), RecorderState::Recording);
    assert_eq!(r.open_handles().len(), 3);
}

#[test]
fn never_started_is_not_recording() {
    let mut r = Recorder::new(desktop_config(), &encoders()).unwrap();
    assert!(matches!(r.save_replay(), Err(RecorderError::NotRecording)));
    let (released, result) = r.stop_recording(true);
    assert_eq!(result, Err(RecorderError::NotRecording));
    assert!(released.is_empty());
    assert_eq!(r.state(), RecorderState::Idle);
}

#[test]
fn start_failures_release_everything() {
    let cases = [
        (StartReport { target_found: false, ..all_ready() }, RecorderError::TargetNotFound),
        (StartReport { desktop_audio_ready: false, ..all_ready() }, RecorderError::DeviceUnavailable),
        (StartReport { encoder_ready: false, ..all_ready() }, RecorderError::EncoderInitFailed),
    ];
    for (report, expected) in cases {
        let mut r = Recorder::new(desktop_config(), &encoders()).unwrap();
        assert_eq!(r.start_recording(&report), Err(expected));
        assert_eq!(r.state(), RecorderState::Failed);
        assert!(r.open_handles().is_empty());
        assert_eq!(r.start_recording(&all_ready()), Err(RecorderError::AlreadyRecording));
    }
}

#[test]
fn microphone_not_needed_when_not_tapped() {
    let mut r = Recorder::new(desktop_config(), &encoders()).unwrap();
    let report = StartReport { microphone_ready: false, ..all_ready() };
    assert_eq!(r.start_recording(&report), Ok(()));
}

#[test]
fn microphone_missing_is_device_unavailable() {
    let config = RecorderConfigBuilder::new().capture_microphone(true).build().unwrap();
    let mut r = Recorder::new(config, &encoders()).unwrap();
    let report = StartReport { microphone_ready: false, ..all_ready() };
    assert_eq!(r.start_recording(&report), Err(RecorderError::DeviceUnavailable));
}

#[test]
fn failed_finalization_is_io_error() {
    let mut r = Recorder::new(desktop_config(), &encoders()).unwrap();
    r.start_recording(&all_ready()).unwrap();
    let (released, result) = r.stop_recording(false);
    assert_eq!(result, Err(RecorderError::IoError));
    assert_eq!(released.len(), 3);
    assert_eq!(r.state(), RecorderState::Stopped);
}

#[test]
fn mid_session_failure_surfaces_on_stop() {
    let mut r = Recorder::new(desktop_config(), &encoders()).unwrap();
    r.start_recording(&all_ready()).unwrap();
    let released = r.report_failure(RecorderError::CaptureSessionLost);
    assert_eq!(
        released,
        vec![Resource::EncoderSession, Resource::DesktopLoopback, Resource::CaptureSession]
    );
    assert_eq!(r.state(), RecorderState::Failed);
    assert!(r.open_handles().is_empty());
    let (again, result) = r.stop_recording(true);
    assert!(again.is_empty());
    assert_eq!(result, Err(RecorderError::CaptureSessionLost));
    assert_eq!(r.stop_recording(true).1, Err(RecorderError::NotRecording));
}

#[test]
fn replay_fed_while_recording() {
    let config = RecorderConfigBuilder::new().replay_buffer_seconds(1).build().unwrap();
    let mut r = Recorder::new(config, &encoders()).unwrap();
    let early = EncodedChunk { pts_us: 0, duration_us: 10, stream: StreamTag::Video, data: vec![] };
    assert!(!r.push_chunk(early));
    r.start_recording(&all_ready()).unwrap();
    for i in 0..100u64 {
        let c = EncodedChunk { pts_us: i * 20_000, duration_us: 20_000, stream: StreamTag::Video, data: vec![1] };
        assert!(r.push_chunk(c));
    }
    let snap = r.save_replay().unwrap();
    assert_eq!(snap.len(), 50);
    assert_eq!(snap[0].pts_us, 1_000_000);
    r.stop_recording(true);
    assert!(matches!(r.save_replay(), Err(RecorderError::NotRecording)));
}

#[test]
fn replay_off_keeps_nothing() {
    let config = RecorderConfigBuilder::new().replay_buffer_seconds(0).build().unwrap();
    let mut r = Recorder::new(config, &encoders()).unwrap();
    r.start_recording(&all_ready()).unwrap();
    let c = EncodedChunk { pts_us: 0, duration_us: 10, stream: StreamTag::Audio, data: vec![] };
    assert!(!r.push_chunk(c));
    assert!(r.save_replay().unwrap().is_empty());
}
