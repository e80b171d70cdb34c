//! Core library for splitting side-by-side dual-camera recordings into two
//! independent videos by driving an external video engine.
//!
//! The library holds the logic that is worth reasoning about: capability
//! detection over an encoder listing, planning of engine invocation
//! arguments, a streaming text-progress parser, and the batch orchestration
//! state machine.  Process spawning, file-system access and the user
//! interface live outside the library and only hand plain values in and out.

pub mod batch;
pub mod config;
pub mod encoder;
pub mod error;
pub mod progress;
pub mod text;
pub mod video;

pub use config::{ProcessingConfig, Quality, Side};
pub use encoder::{detect_hardware_encoder, get_codec_args, HardwareEncoder};
pub use error::ObsCutterError;
pub use batch::{BatchOrchestrator, BatchPhase, FileFailure};
pub use progress::{parse_duration, parse_progress_line, EncodingProgress, FfmpegProgressParser};
pub use video::{
    build_split_args, format_duration, format_file_size, select_video_stream, split_fragments,
    ProcessingProgress, ProcessingResult, ProgressCallback, StreamInfo, VideoInfo,
};
