use vstd::prelude::*;

use crate::config::{ConfigView, RecorderConfig};
use crate::device::{
    VideoEncoder, VideoEncoderType, enumerate_video_encoders, get_preferred_video_encoder_by_type,
    rank, ranked,
};
use crate::error::RecorderError;
use crate::replay::{ChunkView, EncodedChunk, ReplayBuffer, chunk_views, span};

verus! {

/// Lifecycle of one recorder instance.
#[derive(Debug, Clone, Copy, PartialEq, Eq, Structural)]
pub enum RecorderState {
    Idle,
    Starting,
    Recording,
    Stopping,
    Stopped,
    Failed,
}

/// The allowed transitions.
pub open spec fn step(a: RecorderState, b: RecorderState) -> bool {
    match (a, b) {
        (RecorderState::Idle, RecorderState::Starting) => true,
        (RecorderState::Starting, RecorderState::Recording) => true,
        (RecorderState::Starting, RecorderState::Failed) => true,
        (RecorderState::Recording, RecorderState::Stopping) => true,
        (RecorderState::Recording, RecorderState::Failed) => true,
        (RecorderState::Stopping, RecorderState::Stopped) => true,
        _ => false,
    }
}

/// A history that starts in `Idle` and takes only allowed transitions.
pub open spec fn valid_history(h: Seq<RecorderState>) -> bool {
    &&& h.len() > 0
    &&& h[0] == RecorderState::Idle
    &&& forall|i: int| 0 < i < h.len() ==> step(#[trigger] h[i - 1], h[i])
}

/// What is captured: a named process's window, or the whole display.
pub enum CaptureTarget {
    Desktop,
    Process(String),
}

/// An OS-level handle the recorder holds while it records.
#[derive(Debug, Clone, Copy, PartialEq, Eq, Structural)]
pub enum Resource {
    CaptureSession,
    DesktopLoopback,
    Microphone,
    EncoderSession,
}

/// What the platform found when it tried to acquire each resource at start.
#[derive(Debug, Clone, Copy, PartialEq, Eq, Structural)]
pub struct StartReport {
    pub target_found: bool,
    pub desktop_audio_ready: bool,
    pub microphone_ready: bool,
    pub encoder_ready: bool,
}

/// The resources a configuration needs, in acquisition order.
pub open spec fn acquisition_plan(c: ConfigView) -> Seq<Resource> {
    seq![Resource::CaptureSession] + (if c.desktop_tapped() {
        seq![Resource::DesktopLoopback]
    } else {
        Seq::empty()
    }) + (if c.microphone_tapped() {
        seq![Resource::Microphone]
    } else {
        Seq::empty()
    }) + seq![Resource::EncoderSession]
}

/// The start-time outcome: the error of the first required resource that
/// could not be acquired, in acquisition order.
pub open spec fn start_outcome(c: ConfigView, rep: StartReport) -> Result<(), RecorderError> {
    if !rep.target_found {
        Err(RecorderError::TargetNotFound)
    } else if c.desktop_tapped() && !rep.desktop_audio_ready {
        Err(RecorderError::DeviceUnavailable)
    } else if c.microphone_tapped() && !rep.microphone_ready {
        Err(RecorderError::DeviceUnavailable)
    } else if !rep.encoder_ready {
        Err(RecorderError::EncoderInitFailed)
    } else {
        Ok(())
    }
}

pub struct RecorderView {
    pub config: ConfigView,
    pub encoder: VideoEncoder,
    pub target: Option<Seq<char>>,
    pub state: RecorderState,
    pub handles: Seq<Resource>,
    pub failure: Option<RecorderError>,
    pub replay: Seq<ChunkView>,
    pub replay_window: nat,
    pub history: Seq<RecorderState>,
}

impl RecorderView {
    pub open spec fn well_formed(self) -> bool {
        &&& self.config.valid()
        &&& self.replay_window == self.config.replay_window()
        &&& span(self.replay) <= self.replay_window
        &&& valid_history(self.history)
        &&& self.history.last() == self.state
        &&& self.state != RecorderState::Starting
        &&& self.state != RecorderState::Stopping
        &&& self.state == RecorderState::Recording ==> self.handles == acquisition_plan(self.config)
        &&& self.state != RecorderState::Recording ==> self.handles.len() == 0
        &&& self.failure is Some ==> self.state == RecorderState::Failed
        &&& self.state == RecorderState::Idle ==> self.replay.len() == 0
    }

    /// The same recorder with only its lifecycle fields changed.
    pub open spec fn with_lifecycle(
        self,
        state: RecorderState,
        handles: Seq<Resource>,
        failure: Option<RecorderError>,
        history: Seq<RecorderState>,
    ) -> RecorderView {
        RecorderView { state, handles, failure, history, ..self }
    }
}

/// Orchestrates one recording: the lifecycle, the ledger of open OS handles,
/// and the replay buffer fed by the encoder.
pub struct Recorder {
    config: RecorderConfig,
    encoder: VideoEncoder,
    target: CaptureTarget,
    state: RecorderState,
    handles: Vec<Resource>,
    failure: Option<RecorderError>,
    replay: ReplayBuffer,
    history: Ghost<Seq<RecorderState>>,
}

impl View for Recorder {
    type V = RecorderView;

    closed spec fn view(&self) -> RecorderView {
        RecorderView {
            config: self.config@,
            encoder: self.encoder,
            target: match self.target {
                CaptureTarget::Desktop => None,
                CaptureTarget::Process(name) => Some(name@),
            },
            state: self.state,
            handles: self.handles@,
            failure: self.failure,
            replay: self.replay.contents(),
            replay_window: self.replay.window(),
            history: self.history@,
        }
    }
}

/// Empties `v` and returns its elements newest first.
fn drain_reversed(v: &mut Vec<Resource>) -> (r: Vec<Resource>)
    ensures
        r@ == old(v)@.reverse(),
        final(v)@.len() == 0,
{
    let ghost orig = v@;
    let mut r: Vec<Resource> = Vec::new();
    while v.len() > 0
        invariant
            v@ == orig.take(v@.len() as int),
            r@.len() + v@.len() == orig.len(),
            forall|i: int| 0 <= i < r@.len() ==> #[trigger] r@[i] == orig[orig.len() - 1 - i],
        decreases v@.len(),
    {
        let h = v.pop().unwrap();
        r.push(h);
        proof {
            assert(v@ =~= orig.take(v@.len() as int));
        }
    }
    proof {
        assert(r@ =~= orig.reverse());
    }
    r
}

impl Recorder {
    /// Creates an idle recorder that captures the whole display with the
    /// preferred encoder among `discovered`. Fails with `EncoderInitFailed`
    /// when no encoder was discovered.
    pub fn new(config: RecorderConfig, discovered: &Vec<VideoEncoder>) -> (r: Result<
        Recorder,
        RecorderError,
    >)
        ensures
            discovered@.len() == 0 <==> r is Err,
            r matches Err(e) ==> e == RecorderError::EncoderInitFailed,
            r matches Ok(rec) ==> {
                &&& rec@.well_formed()
                &&& rec@.config == config@
                &&& rec@.encoder == ranked(discovered@)[0]
                &&& rec@.target is None
                &&& rec@.state == RecorderState::Idle
                &&& rec@.history == seq![RecorderState::Idle]
                &&& rec@.failure is None
            },
    {
        config.check_valid();
        let ranked_list = enumerate_video_encoders(discovered);
        let best = if ranked_list.len() == 0 {
            None
        } else {
            Some(ranked_list[0].duplicate())
        };
        match best {
            None => Err(RecorderError::EncoderInitFailed),
            Some(encoder) => {
                let window = config.replay_window_us();
                let replay = ReplayBuffer::new(window);
                let ghost history = seq![RecorderState::Idle];
                let rec = Recorder {
                    config,
                    encoder,
                    target: CaptureTarget::Desktop,
                    state: RecorderState::Idle,
                    handles: Vec::new(),
                    failure: None,
                    replay,
                    history: Ghost(history),
                };
                Ok(rec)
            },
        }
    }

    /// The best discovered encoder of the requested category, for callers that
    /// want to check a category before creating a recorder.
    pub fn preferred_encoder(discovered: &Vec<VideoEncoder>, kind: VideoEncoderType) -> (r: Option<
        VideoEncoder,
    >)
        ensures
            r is None <==> forall|i: int|
                0 <= i < discovered@.len() ==> #[trigger] discovered@[i].encoder_type != kind,
            r matches Some(e) ==> e.encoder_type == kind && ranked(discovered@).contains(e),
    {
        let ranked_list = enumerate_video_encoders(discovered);
        let r = get_preferred_video_encoder_by_type(&ranked_list, kind);
        proof {
            if r is None {
                assert forall|i: int| 0 <= i < discovered@.len() implies #[trigger] discovered@[i].encoder_type
                    != kind by {
                    assert(discovered@.contains(discovered@[i]));
                    assert(ranked_list@.contains(discovered@[i]));
                }
            } else {
                let e = r.unwrap();
                let i = choose|i: int| 0 <= i < ranked_list@.len() && ranked_list@[i] == e;
                assert(ranked_list@.contains(e));
                assert(discovered@.contains(e));
            }
        }
        r
    }

    pub fn state(&self) -> (r: RecorderState)
        ensures
            r == self@.state,
    {
        self.state
    }

    pub fn config(&self) -> (r: &RecorderConfig)
        ensures
            r@ == self@.config,
    {
        &self.config
    }

    pub fn encoder(&self) -> (r: &VideoEncoder)
        ensures
            *r == self@.encoder,
    {
        &self.encoder
    }

    /// The process whose window is captured; `None` for the whole display.
    pub fn process_name(&self) -> (r: Option<&str>)
        ensures
            r is None <==> self@.target is None,
            r matches Some(n) ==> self@.target == Some(n@),
    {
        match &self.target {
            CaptureTarget::Desktop => None,
            CaptureTarget::Process(name) => Some(name.as_str()),
        }
    }

    /// The open OS handles, in acquisition order.
    pub fn open_handles(&self) -> (r: Vec<Resource>)
        ensures
            r@ == self@.handles,
    {
        self.handles.clone()
    }

    /// Binds the capture target to the window of the named process. Only an
    /// idle recorder takes a new target; any other is returned unchanged.
    pub fn with_process_name(self, name: &str) -> (r: Recorder)
        ensures
            self@.state == RecorderState::Idle ==> r@ == (RecorderView {
                target: Some(name@),
                ..self@
            }),
            self@.state != RecorderState::Idle ==> r@ == self@,
    {
        if self.state == RecorderState::Idle {
            Recorder { target: CaptureTarget::Process(name.to_owned()), ..self }
        } else {
            self
        }
    }

    /// Starts recording from `Idle`, given what the platform found while
    /// acquiring the capture target, the audio devices the configuration taps
    /// and the encoder. On success every planned handle is held; on failure
    /// none is, and the recorder is `Failed`. Any state other than `Idle`
    /// answers `AlreadyRecording` and is left as it was.
    pub fn start_recording(&mut self, report: &StartReport) -> (r: Result<(), RecorderError>)
        requires
            old(self)@.well_formed(),
        ensures
            final(self)@.well_formed(),
            old(self)@.state != RecorderState::Idle ==> r == Err::<(), RecorderError>(
                RecorderError::AlreadyRecording,
            ) && final(self)@ == old(self)@,
            old(self)@.state == RecorderState::Idle ==> r == start_outcome(old(self)@.config, *report),
            old(self)@.state == RecorderState::Idle && r is Ok ==> final(self)@ == old(
                self,
            )@.with_lifecycle(
                RecorderState::Recording,
                acquisition_plan(old(self)@.config),
                None,
                old(self)@.history.push(RecorderState::Starting).push(RecorderState::Recording),
            ),
            old(self)@.state == RecorderState::Idle && r is Err ==> final(self)@ == old(
                self,
            )@.with_lifecycle(
                RecorderState::Failed,
                Seq::empty(),
                None,
                old(self)@.history.push(RecorderState::Starting).push(RecorderState::Failed),
            ),
    {
        if self.state != RecorderState::Idle {
            return Err(RecorderError::AlreadyRecording);
        }
        self.state = RecorderState::Starting;
        proof {
            self.history@ = self.history@.push(RecorderState::Starting);
        }
        let desktop = self.config.captures_desktop_audio();
        let microphone = self.config.captures_microphone();
        let outcome = if !report.target_found {
            Err(RecorderError::TargetNotFound)
        } else if desktop && !report.desktop_audio_ready {
            Err(RecorderError::DeviceUnavailable)
        } else if microphone && !report.microphone_ready {
            Err(RecorderError::DeviceUnavailable)
        } else if !report.encoder_ready {
            Err(RecorderError::EncoderInitFailed)
        } else {
            Ok(())
        };
        match outcome {
            Ok(()) => {
                self.handles.push(Resource::CaptureSession);
                if desktop {
                    self.handles.push(Resource::DesktopLoopback);
                }
                if microphone {
                    self.handles.push(Resource::Microphone);
                }
                self.handles.push(Resource::EncoderSession);
                self.state = RecorderState::Recording;
                proof {
                    self.history@ = self.history@.push(RecorderState::Recording);
                    assert(self.handles@ =~= acquisition_plan(self.config@));
                }
            },
            Err(_) => {
                self.state = RecorderState::Failed;
                proof {
                    self.history@ = self.history@.push(RecorderState::Failed);
                    assert(self.handles@ =~= Seq::<Resource>::empty());
                }
            },
        }
        proof {
            let h = self.history@;
            assert forall|i: int| 0 < i < h.len() implies step(#[trigger] h[i - 1], h[i]) by {
                if i < h.len() - 2 {
                    assert(h[i - 1] == old(self)@.history[i - 1]);
                    assert(h[i] == old(self)@.history[i]);
                }
            }
        }
        outcome
    }

    /// Stops a recording: the lifecycle goes through `Stopping` to `Stopped`,
    /// and every open handle is handed back for release, newest first. The
    /// result reports a failed finalization of the container as `IoError`. A
    /// recorder that failed mid-session answers with that failure, once; any
    /// other recorder that is not recording answers `NotRecording`. Either
    /// way no handle is left open.
    pub fn stop_recording(&mut self, finalized: bool) -> (r: (Vec<Resource>, Result<(), RecorderError>))
        requires
            old(self)@.well_formed(),
        ensures
            final(self)@.well_formed(),
            final(self)@.handles.len() == 0,
            r.0@ == old(self)@.handles.reverse(),
            old(self)@.state == RecorderState::Recording ==> {
                &&& final(self)@ == old(self)@.with_lifecycle(
                    RecorderState::Stopped,
                    Seq::empty(),
                    None,
                    old(self)@.history.push(RecorderState::Stopping).push(RecorderState::Stopped),
                )
                &&& r.1 == if finalized {
                    Ok::<(), RecorderError>(())
                } else {
                    Err(RecorderError::IoError)
                }
            },
            old(self)@.state != RecorderState::Recording ==> {
                &&& final(self)@ == (RecorderView { failure: None, ..old(self)@ })
                &&& r.1 == Err::<(), RecorderError>(
                    match old(self)@.failure {
                        Some(e) => e,
                        None => RecorderError::NotRecording,
                    },
                )
            },
    {
        if self.state != RecorderState::Recording {
            let e = match self.failure {
                Some(e) => e,
                None => RecorderError::NotRecording,
            };
            self.failure = None;
            let released = drain_reversed(&mut self.handles);
            proof {
                assert(self.handles@ =~= old(self).handles@);
                assert(released@ =~= old(self)@.handles.reverse());
            }
            return (released, Err(e));
        }
        self.state = RecorderState::Stopping;
        let released = drain_reversed(&mut self.handles);
        self.state = RecorderState::Stopped;
        proof {
            self.history@ = self.history@.push(RecorderState::Stopping).push(RecorderState::Stopped);
            assert(self.handles@ =~= Seq::<Resource>::empty());
            let h = self.history@;
            assert forall|i: int| 0 < i < h.len() implies step(#[trigger] h[i - 1], h[i]) by {
                if i < h.len() - 2 {
                    assert(h[i - 1] == old(self)@.history[i - 1]);
                    assert(h[i] == old(self)@.history[i]);
                }
            }
        }
        let result = if finalized {
            Ok(())
        } else {
            Err(RecorderError::IoError)
        };
        (released, result)
    }

    /// A mid-session failure (the target vanished, an encode write failed):
    /// the recorder becomes `Failed`, keeps `error` for the next stop, and
    /// hands back every open handle, newest first. Outside `Recording` nothing
    /// changes and nothing is handed back.
    pub fn report_failure(&mut self, error: RecorderError) -> (released: Vec<Resource>)
        requires
            old(self)@.well_formed(),
        ensures
            final(self)@.well_formed(),
            released@ == old(self)@.handles.reverse(),
            final(self)@.handles.len() == 0,
            old(self)@.state == RecorderState::Recording ==> final(self)@ == old(
                self,
            )@.with_lifecycle(
                RecorderState::Failed,
                Seq::empty(),
                Some(error),
                old(self)@.history.push(RecorderState::Failed),
            ),
            old(self)@.state != RecorderState::Recording ==> final(self)@ == old(self)@,
    {
        let released = drain_reversed(&mut self.handles);
        if self.state == RecorderState::Recording {
            self.state = RecorderState::Failed;
            self.failure = Some(error);
            proof {
                self.history@ = self.history@.push(RecorderState::Failed);
                assert(self.handles@ =~= Seq::<Resource>::empty());
                let h = self.history@;
                assert forall|i: int| 0 < i < h.len() implies step(#[trigger] h[i - 1], h[i]) by {
                    if i < h.len() - 1 {
                        assert(h[i - 1] == old(self)@.history[i - 1]);
                        assert(h[i] == old(self)@.history[i]);
                    }
                }
            }
        } else {
            proof {
                assert(self.handles@ =~= old(self).handles@);
                assert(released@ =~= old(self)@.handles.reverse());
            }
        }
        released
    }

    /// Hands an encoded chunk to the replay buffer while recording with a
    /// replay window; otherwise the chunk is not kept. Returns whether it was
    /// buffered.
    pub fn push_chunk(&mut self, chunk: EncodedChunk) -> (kept: bool)
        requires
            old(self)@.well_formed(),
        ensures
            final(self)@.well_formed(),
            kept == (old(self)@.state == RecorderState::Recording && old(self)@.replay_window > 0),
            !kept ==> final(self)@ == old(self)@,
            kept ==> final(self)@ == (RecorderView { replay: final(self)@.replay, ..old(self)@ }),
            kept ==> final(self)@.replay == old(self)@.replay.push(chunk@).skip(
                old(self)@.replay.len() + 1 - final(self)@.replay.len(),
            ),
    {
        if self.state == RecorderState::Recording && self.replay.window_us() > 0 {
            let ghost c = chunk@;
            let k = self.replay.append(chunk);
            proof {
                assert(self@ == (RecorderView {
                    replay: old(self)@.replay.push(c).skip(k as int),
                    ..old(self)@
                }));
            }
            true
        } else {
            false
        }
    }

    /// A copy of the replay buffer for writing to a new file. Only a recording
    /// recorder has one; any other answers `NotRecording`. Nothing changes.
    pub fn save_replay(&self) -> (r: Result<Vec<EncodedChunk>, RecorderError>)
        requires
            self@.well_formed(),
        ensures
            self@.state == RecorderState::Recording <==> r is Ok,
            r matches Ok(chunks) ==> chunk_views(chunks@) == self@.replay && span(chunk_views(chunks@))
                <= self@.replay_window,
            r matches Err(e) ==> e == RecorderError::NotRecording,
    {
        if self.state == RecorderState::Recording || self.state == RecorderState::Stopping {
            Ok(self.replay.snapshot())
        } else {
            Err(RecorderError::NotRecording)
        }
    }
}

/// A recorder's history never reaches `Stopped` but straight from `Stopping`.
pub proof fn lemma_stopped_only_after_stopping(v: RecorderView, i: int)
    requires
        v.well_formed(),
        0 <= i < v.history.len(),
        v.history[i] == RecorderState::Stopped,
    ensures
        i > 0 && v.history[i - 1] == RecorderState::Stopping,
{
    if i == 0 {
        assert(v.history[0] == RecorderState::Idle);
    } else {
        assert(step(v.history[i - 1], v.history[i]));
    }
}

/// A recorder that is stopped or failed holds no OS handle.
pub proof fn lemma_terminal_holds_no_handle(v: RecorderView)
    requires
        v.well_formed(),
        v.state == RecorderState::Stopped || v.state == RecorderState::Failed,
    ensures
        v.handles.len() == 0,
{
}

} // verus!
