//! Verified core of a window/desktop recorder: configuration, encoder
//! ranking, stream synchronization, the replay ring buffer and the
//! recorder's lifecycle state machine.

pub mod config;
pub mod device;
pub mod error;
pub mod recorder;
pub mod replay;
pub mod session;
pub mod sync;

pub use config::{AudioSource, RecorderConfig, RecorderConfigBuilder};
pub use device::{
    VideoEncoder, VideoEncoderType, enumerate_video_encoders, get_preferred_video_encoder_by_type,
};
pub use error::RecorderError;
pub use recorder::{CaptureTarget, Recorder, RecorderState, Resource, StartReport};
pub use replay::{EncodedChunk, ReplayBuffer, StreamTag};
pub use session::{RecordingSettings, RecordingSlot, config_from_settings};
pub use sync::{BoundedQueue, DriftAction, Synchronizer};
