use windows_record::{AudioSource, RecorderConfigBuilder, RecorderError};

#[test]
fn defaults_build() {
    let c = RecorderConfigBuilder::new().build().unwrap();
    assert_eq!(c.fps(), (30, 1));
    assert_eq!(c.output_dimensions(), None);
    assert_eq!(c.output_path(), "output.mp4");
    assert!(!c.captures_desktop_audio());
    assert!(!c.captures_microphone());
    assert!(c.capture_cursor());
    assert!(!c.debug_mode());
    assert_eq!(c.microphone_volume(), 100);
    assert_eq!(c.system_volume(), 100);
    assert_eq!(c.frame_interval_us(), 33_333);
    assert_eq!(c.replay_window_us(), 30_000_000);
}

#[test]
fn setters_are_kept() {
    let c = RecorderConfigBuilder::new()
        .fps(60, 1)
        .output_dimensions(1920, 1080)
        .capture_audio(true)
        .capture_microphone(false)
        .audio_source(AudioSource::Desktop)
        .microphone_volume(50)
        .system_volume(75)
        .debug_mode(true)
        .capture_cursor(false)
        .output_path("clip.mp4")
        .replay_buffer_seconds(10)
        .build()
        .unwrap();
    assert_eq!(c.fps(), (60, 1));
    assert_eq!(c.output_dimensions(), Some((1920, 1080)));
    assert!(c.captures_desktop_audio());
    assert!(!c.captures_microphone());
    assert_eq!(c.microphone_volume(), 50);
    assert_eq!(c.system_volume(), 75);
    assert!(c.debug_mode());
    assert!(!c.capture_cursor());
    assert_eq!(c.output_path(), "clip.mp4");
    assert_eq!(c.replay_window_us(), 10_000_000);
}

#[test]
fn ntsc_frame_interval() {
    let c = RecorderConfigBuilder::new().fps(30_000, 1001).build().unwrap();
    assert_eq!(c.frame_interval_us(), 33_366);
}

#[test]
fn zero_denominator_rejected() {
    let r = RecorderConfigBuilder::new().fps(30, 0).build();
    assert_eq!(r.err(), Some(RecorderError::ConfigurationInvalid));
}

#[test]
fn zero_frame_rate_rejected() {
    let r = RecorderConfigBuilder::new().fps(0, 1).build();
    assert_eq!(r.err(), Some(RecorderError::ConfigurationInvalid));
}

#[test]
fn volume_out_of_range_rejected() {
    let r = RecorderConfigBuilder::new().microphone_volume(101).build();
    assert_eq!(r.err(), Some(RecorderError::ConfigurationInvalid));
    let r = RecorderConfigBuilder::new().system_volume(250).build();
    assert_eq!(r.err(), Some(RecorderError::ConfigurationInvalid));
    assert!(RecorderConfigBuilder::new().system_volume(100).build().is_ok());
    assert!(RecorderConfigBuilder::new().microphone_volume(0).build().is_ok());
}

#[test]
fn zero_dimensions_rejected() {
    let r = RecorderConfigBuilder::new().output_dimensions(0, 1080).build();
    assert_eq!(r.err(), Some(RecorderError::ConfigurationInvalid));
}

#[test]
fn empty_output_path_rejected() {
    let r = RecorderConfigBuilder::new().output_path("").build();
    assert_eq!(r.err(), Some(RecorderError::ConfigurationInvalid));
}

#[test]
fn audio_sources_select_taps() {
    let both = RecorderConfigBuilder::new()
        .capture_audio(true)
        .audio_source(AudioSource::Both)
        .build()
        .unwrap();
    assert!(both.captures_desktop_audio());
    assert!(both.captures_microphone());
    let mic = RecorderConfigBuilder::new()
        .capture_audio(true)
        .audio_source(AudioSource::Microphone)
        .build()
        .unwrap();
    assert!(!mic.captures_desktop_audio());
    assert!(mic.captures_microphone());
    let mic_only_flag = RecorderConfigBuilder::new().capture_microphone(true).build().unwrap();
    assert!(!mic_only_flag.captures_desktop_audio());
    assert!(mic_only_flag.captures_microphone());
}
