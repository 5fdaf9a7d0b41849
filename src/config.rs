use vstd::prelude::*;

use crate::error::RecorderError;

verus! {

/// Largest accepted volume, in percent of the captured level.
pub const MAX_VOLUME_PERCENT: u32 = 100;

/// Microseconds in one second.
pub const MICROS_PER_SECOND: u64 = 1_000_000;

/// Which audio the recorder taps when audio capture is on.
#[derive(Debug, Clone, Copy, PartialEq, Eq, Structural)]
pub enum AudioSource {
    Desktop,
    Microphone,
    Both,
}

/// The mathematical content of a configuration (and of a builder).
pub struct ConfigView {
    pub fps_num: u32,
    pub fps_den: u32,
    pub output_dimensions: Option<(u32, u32)>,
    pub capture_audio: bool,
    pub capture_microphone: bool,
    pub audio_source: AudioSource,
    pub microphone_volume: u32,
    pub system_volume: u32,
    pub debug_mode: bool,
    pub capture_cursor: bool,
    pub output_path: Seq<char>,
    pub replay_seconds: u32,
}

impl ConfigView {
    /// The values that `build` accepts.
    pub open spec fn valid(self) -> bool {
        &&& self.fps_num > 0
        &&& self.fps_den > 0
        &&& match self.output_dimensions {
            Some((w, h)) => w > 0 && h > 0,
            None => true,
        }
        &&& self.microphone_volume <= MAX_VOLUME_PERCENT
        &&& self.system_volume <= MAX_VOLUME_PERCENT
        &&& self.output_path.len() > 0
    }

    /// Desktop loopback is tapped.
    pub open spec fn desktop_tapped(self) -> bool {
        self.capture_audio && self.audio_source != AudioSource::Microphone
    }

    /// The microphone is tapped.
    pub open spec fn microphone_tapped(self) -> bool {
        self.capture_microphone || (self.capture_audio && self.audio_source
            != AudioSource::Desktop)
    }

    /// Nominal time between two frames, in whole microseconds.
    pub open spec fn frame_interval(self) -> int {
        (MICROS_PER_SECOND * self.fps_den) as int / self.fps_num as int
    }

    /// Length of the replay window, in microseconds.
    pub open spec fn replay_window(self) -> int {
        MICROS_PER_SECOND * self.replay_seconds
    }
}

/// The values a fresh builder starts from.
pub open spec fn default_view() -> ConfigView {
    ConfigView {
        fps_num: 30,
        fps_den: 1,
        output_dimensions: None,
        capture_audio: false,
        capture_microphone: false,
        audio_source: AudioSource::Desktop,
        microphone_volume: MAX_VOLUME_PERCENT,
        system_volume: MAX_VOLUME_PERCENT,
        debug_mode: false,
        capture_cursor: true,
        output_path: seq!['o', 'u', 't', 'p', 'u', 't', '.', 'm', 'p', '4'],
        replay_seconds: 30,
    }
}

/// Chainable assembly of a [`RecorderConfig`].
pub struct RecorderConfigBuilder {
    fps_num: u32,
    fps_den: u32,
    output_dimensions: Option<(u32, u32)>,
    capture_audio: bool,
    capture_microphone: bool,
    audio_source: AudioSource,
    microphone_volume: u32,
    system_volume: u32,
    debug_mode: bool,
    capture_cursor: bool,
    output_path: String,
    replay_seconds: u32,
}

impl View for RecorderConfigBuilder {
    type V = ConfigView;

    closed spec fn view(&self) -> ConfigView {
        ConfigView {
            fps_num: self.fps_num,
            fps_den: self.fps_den,
            output_dimensions: self.output_dimensions,
            capture_audio: self.capture_audio,
            capture_microphone: self.capture_microphone,
            audio_source: self.audio_source,
            microphone_volume: self.microphone_volume,
            system_volume: self.system_volume,
            debug_mode: self.debug_mode,
            capture_cursor: self.capture_cursor,
            output_path: self.output_path@,
            replay_seconds: self.replay_seconds,
        }
    }
}

impl RecorderConfigBuilder {
    pub fn new() -> (r: Self)
        ensures
            r@ == default_view(),
    {
        let r = RecorderConfigBuilder {
            fps_num: 30,
            fps_den: 1,
            output_dimensions: None,
            capture_audio: false,
            capture_microphone: false,
            audio_source: AudioSource::Desktop,
            microphone_volume: MAX_VOLUME_PERCENT,
            system_volume: MAX_VOLUME_PERCENT,
            debug_mode: false,
            capture_cursor: true,
            output_path: "output.mp4".to_owned(),
            replay_seconds: 30,
        };
        proof {
            reveal_strlit("output.mp4");
            assert(r@.output_path =~= default_view().output_path);
        }
        r
    }

    /// Frame rate as the fraction `num / den` frames per second.
    pub fn fps(self, num: u32, den: u32) -> (r: Self)
        ensures
            r@ == (ConfigView { fps_num: num, fps_den: den, ..self@ }),
    {
        RecorderConfigBuilder { fps_num: num, fps_den: den, ..self }
    }

    /// Fixed output size; when never set, the first captured frame decides.
    pub fn output_dimensions(self, width: u32, height: u32) -> (r: Self)
        ensures
            r@ == (ConfigView { output_dimensions: Some((width, height)), ..self@ }),
    {
        RecorderConfigBuilder { output_dimensions: Some((width, height)), ..self }
    }

    pub fn capture_audio(self, on: bool) -> (r: Self)
        ensures
            r@ == (ConfigView { capture_audio: on, ..self@ }),
    {
        RecorderConfigBuilder { capture_audio: on, ..self }
    }

    pub fn capture_microphone(self, on: bool) -> (r: Self)
        ensures
            r@ == (ConfigView { capture_microphone: on, ..self@ }),
    {
        RecorderConfigBuilder { capture_microphone: on, ..self }
    }

    pub fn audio_source(self, source: AudioSource) -> (r: Self)
        ensures
            r@ == (ConfigView { audio_source: source, ..self@ }),
    {
        RecorderConfigBuilder { audio_source: source, ..self }
    }

    /// Microphone level in percent.
    pub fn microphone_volume(self, percent: u32) -> (r: Self)
        ensures
            r@ == (ConfigView { microphone_volume: percent, ..self@ }),
    {
        RecorderConfigBuilder { microphone_volume: percent, ..self }
    }

    /// Desktop level in percent.
    pub fn system_volume(self, percent: u32) -> (r: Self)
        ensures
            r@ == (ConfigView { system_volume: percent, ..self@ }),
    {
        RecorderConfigBuilder { system_volume: percent, ..self }
    }

    pub fn debug_mode(self, on: bool) -> (r: Self)
        ensures
            r@ == (ConfigView { debug_mode: on, ..self@ }),
    {
        RecorderConfigBuilder { debug_mode: on, ..self }
    }

    pub fn capture_cursor(self, on: bool) -> (r: Self)
        ensures
            r@ == (ConfigView { capture_cursor: on, ..self@ }),
    {
        RecorderConfigBuilder { capture_cursor: on, ..self }
    }

    pub fn output_path(self, path: &str) -> (r: Self)
        ensures
            r@ == (ConfigView { output_path: path@, ..self@ }),
    {
        RecorderConfigBuilder { output_path: path.to_owned(), ..self }
    }

    /// Length of the replay window in seconds; zero turns the replay buffer off.
    pub fn replay_buffer_seconds(self, seconds: u32) -> (r: Self)
        ensures
            r@ == (ConfigView { replay_seconds: seconds, ..self@ }),
    {
        RecorderConfigBuilder { replay_seconds: seconds, ..self }
    }

    /// Checks the assembled values and freezes them.
    pub fn build(self) -> (r: Result<RecorderConfig, RecorderError>)
        ensures
            self@.valid() <==> r is Ok,
            r matches Ok(c) ==> c@ == self@,
            r matches Err(e) ==> e == RecorderError::ConfigurationInvalid,
    {
        let dims_ok = match self.output_dimensions {
            Some((w, h)) => w > 0 && h > 0,
            None => true,
        };
        if self.fps_num == 0 || self.fps_den == 0 || !dims_ok || self.microphone_volume
            > MAX_VOLUME_PERCENT || self.system_volume > MAX_VOLUME_PERCENT
            || self.output_path.as_str().is_empty() {
            return Err(RecorderError::ConfigurationInvalid);
        }
        Ok(RecorderConfig { inner: self })
    }
}

/// A checked, immutable recording configuration.
pub struct RecorderConfig {
    inner: RecorderConfigBuilder,
}

impl View for RecorderConfig {
    type V = ConfigView;

    closed spec fn view(&self) -> ConfigView {
        self.inner@
    }
}

impl RecorderConfig {
    #[verifier::type_invariant]
    spec fn inv(self) -> bool {
        self@.valid()
    }

    /// Every configuration value satisfies `valid`.
    pub fn check_valid(&self)
        ensures
            self@.valid(),
    {
        proof {
            use_type_invariant(self);
        }
    }

    pub fn fps(&self) -> (r: (u32, u32))
        ensures
            r == (self@.fps_num, self@.fps_den),
    {
        (self.inner.fps_num, self.inner.fps_den)
    }

    pub fn output_dimensions(&self) -> (r: Option<(u32, u32)>)
        ensures
            r == self@.output_dimensions,
    {
        self.inner.output_dimensions
    }

    pub fn captures_desktop_audio(&self) -> (r: bool)
        ensures
            r == self@.desktop_tapped(),
    {
        self.inner.capture_audio && self.inner.audio_source != AudioSource::Microphone
    }

    pub fn captures_microphone(&self) -> (r: bool)
        ensures
            r == self@.microphone_tapped(),
    {
        self.inner.capture_microphone || (self.inner.capture_audio && self.inner.audio_source
            != AudioSource::Desktop)
    }

    pub fn microphone_volume(&self) -> (r: u32)
        ensures
            r == self@.microphone_volume,
    {
        self.inner.microphone_volume
    }

    pub fn system_volume(&self) -> (r: u32)
        ensures
            r == self@.system_volume,
    {
        self.inner.system_volume
    }

    pub fn debug_mode(&self) -> (r: bool)
        ensures
            r == self@.debug_mode,
    {
        self.inner.debug_mode
    }

    pub fn capture_cursor(&self) -> (r: bool)
        ensures
            r == self@.capture_cursor,
    {
        self.inner.capture_cursor
    }

    pub fn output_path(&self) -> (r: &str)
        ensures
            r@ == self@.output_path,
    {
        self.inner.output_path.as_str()
    }

    /// Nominal frame interval in microseconds, rounded down.
    pub fn frame_interval_us(&self) -> (r: u64)
        ensures
            r == self@.frame_interval(),
    {
        proof {
            use_type_invariant(self);
        }
        MICROS_PER_SECOND * (self.inner.fps_den as u64) / (self.inner.fps_num as u64)
    }

    /// Replay window in microseconds.
    pub fn replay_window_us(&self) -> (r: u64)
        ensures
            r == self@.replay_window(),
    {
        MICROS_PER_SECOND * (self.inner.replay_seconds as u64)
    }
}

} // verus!
