use vstd::prelude::*;

use crate::config::{AudioSource, ConfigView, RecorderConfig, RecorderConfigBuilder, default_view};
use crate::device::VideoEncoder;
use crate::error::RecorderError;
use crate::recorder::{
    Recorder, RecorderState, RecorderView, Resource, StartReport, acquisition_plan, start_outcome,
};
use crate::replay::{EncodedChunk, chunk_views};

verus! {

/// The settings a user supplies for one recording.
pub struct RecordingSettings {
    pub output_path: String,
    pub fps: u32,
    pub record_audio: bool,
    pub process_name: Option<String>,
}

/// The configuration that `settings` describe: `fps` frames per second,
/// desktop audio when audio is asked for, defaults elsewhere.
pub open spec fn settings_config(s: RecordingSettings) -> ConfigView {
    ConfigView {
        fps_num: s.fps,
        fps_den: 1,
        output_path: s.output_path@,
        capture_audio: s.record_audio,
        audio_source: AudioSource::Desktop,
        ..default_view()
    }
}

pub open spec fn target_view(name: Option<String>) -> Option<Seq<char>> {
    match name {
        Some(n) => Some(n@),
        None => None,
    }
}

/// Builds the configuration for `settings`.
pub fn config_from_settings(settings: &RecordingSettings) -> (r: Result<RecorderConfig, RecorderError>)
    ensures
        settings_config(*settings).valid() <==> r is Ok,
        r matches Ok(c) ==> c@ == settings_config(*settings),
        r matches Err(e) ==> e == RecorderError::ConfigurationInvalid,
{
    let mut builder = RecorderConfigBuilder::new().fps(settings.fps, 1).output_path(
        settings.output_path.as_str(),
    );
    if settings.record_audio {
        builder = builder.capture_audio(true).audio_source(AudioSource::Desktop);
    }
    proof {
        assert(builder@ == settings_config(*settings));
    }
    builder.build()
}

/// The process-wide slot that holds at most one live recorder.
pub struct RecordingSlot {
    active: Option<Recorder>,
}

impl View for RecordingSlot {
    type V = Option<RecorderView>;

    closed spec fn view(&self) -> Option<RecorderView> {
        match self.active {
            Some(r) => Some(r@),
            None => None,
        }
    }
}

impl RecordingSlot {
    /// A held recorder is well formed and either recording or failed
    /// mid-session, waiting for its stop.
    pub open spec fn well_formed(&self) -> bool {
        self@ matches Some(v) ==> v.well_formed() && (v.state == RecorderState::Recording
            || v.state == RecorderState::Failed)
    }

    pub fn new() -> (r: Self)
        ensures
            r@ is None,
            r.well_formed(),
    {
        RecordingSlot { active: None }
    }

    pub fn is_active(&self) -> (r: bool)
        ensures
            r == self@ is Some,
    {
        self.active.is_some()
    }

    /// Creates, targets and starts a recorder for `settings` with the best of
    /// the `discovered` encoders, and keeps it only when it started. A held
    /// recorder answers `AlreadyRecording` and stays untouched.
    pub fn start_recording(
        &mut self,
        settings: &RecordingSettings,
        discovered: &Vec<VideoEncoder>,
        report: &StartReport,
    ) -> (r: Result<(), RecorderError>)
        requires
            old(self).well_formed(),
        ensures
            final(self).well_formed(),
            old(self)@ is Some ==> r == Err::<(), RecorderError>(RecorderError::AlreadyRecording)
                && final(self)@ == old(self)@,
            old(self)@ is None ==> r == if !settings_config(*settings).valid() {
                Err(RecorderError::ConfigurationInvalid)
            } else if discovered@.len() == 0 {
                Err(RecorderError::EncoderInitFailed)
            } else {
                start_outcome(settings_config(*settings), *report)
            },
            old(self)@ is None && r is Err ==> final(self)@ is None,
            r is Ok ==> (final(self)@ matches Some(v) && v.state == RecorderState::Recording
                && v.config == settings_config(*settings) && v.target == target_view(
                settings.process_name,
            ) && v.handles == acquisition_plan(v.config)),
    {
        if self.active.is_some() {
            return Err(RecorderError::AlreadyRecording);
        }
        let config = match config_from_settings(settings) {
            Ok(c) => c,
            Err(e) => {
                return Err(e);
            },
        };
        let mut recorder = match Recorder::new(config, discovered) {
            Ok(rec) => rec,
            Err(e) => {
                return Err(e);
            },
        };
        match &settings.process_name {
            Some(name) => {
                recorder = recorder.with_process_name(name.as_str());
            },
            None => {},
        }
        let r = recorder.start_recording(report);
        if r.is_ok() {
            self.active = Some(recorder);
        }
        r
    }

    /// Takes the held recorder out of the slot and stops it; see
    /// [`Recorder::stop_recording`]. An empty slot answers `NotRecording`.
    pub fn stop_recording(&mut self, finalized: bool) -> (r: (Vec<Resource>, Result<(), RecorderError>))
        requires
            old(self).well_formed(),
        ensures
            final(self)@ is None,
            old(self)@ is None ==> r.0@.len() == 0 && r.1 == Err::<(), RecorderError>(
                RecorderError::NotRecording,
            ),
            old(self)@ matches Some(v) ==> r.0@ == v.handles.reverse() && r.1 == if v.state
                == RecorderState::Recording {
                if finalized {
                    Ok::<(), RecorderError>(())
                } else {
                    Err(RecorderError::IoError)
                }
            } else {
                Err(
                    match v.failure {
                        Some(e) => e,
                        None => RecorderError::NotRecording,
                    },
                )
            },
    {
        match self.active.take() {
            None => (Vec::new(), Err(RecorderError::NotRecording)),
            Some(mut recorder) => recorder.stop_recording(finalized),
        }
    }

    /// Feeds an encoded chunk to the held recorder's replay buffer.
    pub fn push_chunk(&mut self, chunk: EncodedChunk) -> (kept: bool)
        requires
            old(self).well_formed(),
        ensures
            final(self).well_formed(),
            final(self)@ is Some == old(self)@ is Some,
            old(self)@ is None ==> !kept,
            old(self)@ matches Some(o) ==> (final(self)@ matches Some(v) && v == (RecorderView {
                replay: v.replay,
                ..o
            }) && (kept <==> (o.state == RecorderState::Recording && o.replay_window > 0)) && (kept
                ==> v.replay == o.replay.push(chunk@).skip(o.replay.len() + 1 - v.replay.len()))
                && (!kept ==> v == o)),
    {
        match self.active.take() {
            None => false,
            Some(mut recorder) => {
                let kept = recorder.push_chunk(chunk);
                self.active = Some(recorder);
                kept
            },
        }
    }

    /// Records a mid-session failure of the held recorder and hands back its
    /// open handles, newest first.
    pub fn report_failure(&mut self, error: RecorderError) -> (released: Vec<Resource>)
        requires
            old(self).well_formed(),
        ensures
            final(self).well_formed(),
            old(self)@ is None ==> released@.len() == 0 && final(self)@ is None,
            old(self)@ matches Some(v) ==> released@ == v.handles.reverse() && (final(self)@ matches Some(
                w,
            ) && w.handles.len() == 0 && w.state == RecorderState::Failed),
    {
        match self.active.take() {
            None => Vec::new(),
            Some(mut recorder) => {
                let released = recorder.report_failure(error);
                self.active = Some(recorder);
                released
            },
        }
    }

    /// A copy of the held recorder's replay buffer; an empty slot, or a
    /// recorder that is not recording, answers `NotRecording`.
    pub fn save_replay(&self) -> (r: Result<Vec<EncodedChunk>, RecorderError>)
        requires
            self.well_formed(),
        ensures
            (self@ matches Some(v) && v.state == RecorderState::Recording) <==> r is Ok,
            r matches Ok(chunks) ==> self@ matches Some(v) && chunk_views(chunks@) == v.replay,
            r matches Err(e) ==> e == RecorderError::NotRecording,
    {
        match &self.active {
            None => Err(RecorderError::NotRecording),
            Some(recorder) => recorder.save_replay(),
        }
    }
}

} // verus!
