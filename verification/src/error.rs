//! Error type for the split pipeline.

use vstd::prelude::*;
use crate::text::dec_chars;
use crate::text::u64_to_string;

verus! {

/// Everything that can go wrong while probing, planning or splitting.
///
/// Failures of outside processes are carried as their captured diagnostic
/// text; the library never formats through `Display`, so the human-readable
/// rendering lives in [`ObsCutterError::message`].
#[derive(Debug, Clone, PartialEq, Eq)]
pub enum ObsCutterError {
    /// The video engine binary could not be run.
    FfmpegNotFound,
    /// The probe binary could not be run.
    FfprobeNotFound,
    /// An input video file does not exist.
    VideoNotFound(String),
    /// Probing a video failed; carries the probe's diagnostic text.
    VideoAnalysisFailed(String),
    /// The probe listing holds no usable video stream descriptor.
    NoVideoStream,
    /// The input does not have the expected side-by-side dimensions.
    InvalidDimensions { width: u32, height: u32 },
    /// An unknown quality preset name was given.
    InvalidQuality(String),
    /// An unknown split side name was given.
    InvalidSide(String),
    /// A split invocation failed; carries the engine's diagnostic text.
    FfmpegFailed(String),
    /// The output directory could not be created.
    OutputDirectoryError(String),
    /// An input/output error, carried as text.
    IoError(String),
    /// A structured probe listing could not be decoded, carried as text.
    JsonError(String),
    /// The batch was cancelled before this step could run.
    Cancelled,
}

/// Human-readable rendering of each error.
pub open spec fn spec_message(e: ObsCutterError) -> Seq<char> {
    match e {
        ObsCutterError::FfmpegNotFound => "FFmpeg is not installed or not found in PATH"@,
        ObsCutterError::FfprobeNotFound => "FFprobe is not installed or not found in PATH"@,
        ObsCutterError::VideoNotFound(p) => "Video file not found: "@ + p@,
        ObsCutterError::VideoAnalysisFailed(m) => "Failed to analyze video: "@ + m@,
        ObsCutterError::NoVideoStream => "No video stream found in file"@,
        ObsCutterError::InvalidDimensions { width, height } => "Invalid video dimensions: "@
            + dec_chars(width as int) + "x"@ + dec_chars(height as int),
        ObsCutterError::InvalidQuality(s) => "Invalid quality preset: "@ + s@
            + ". Valid options: lossless, high, medium"@,
        ObsCutterError::InvalidSide(s) => "Invalid side: "@ + s@
            + ". Valid options: left, right"@,
        ObsCutterError::FfmpegFailed(m) => "FFmpeg processing failed: "@ + m@,
        ObsCutterError::OutputDirectoryError(m) => "Failed to create output directory: "@ + m@,
        ObsCutterError::IoError(m) => "IO error: "@ + m@,
        ObsCutterError::JsonError(m) => "JSON parsing error: "@ + m@,
        ObsCutterError::Cancelled => "Processing was cancelled"@,
    }
}

impl ObsCutterError {
    /// Renders the error as the text a user sees.
    pub fn message(&self) -> (r: String)
        ensures
            r@ == spec_message(*self),
    {
        match self {
            ObsCutterError::FfmpegNotFound => String::from_str(
                "FFmpeg is not installed or not found in PATH",
            ),
            ObsCutterError::FfprobeNotFound => String::from_str(
                "FFprobe is not installed or not found in PATH",
            ),
            ObsCutterError::VideoNotFound(p) => {
                let mut s = String::from_str("Video file not found: ");
                s.append(p.as_str());
                s
            },
            ObsCutterError::VideoAnalysisFailed(m) => {
                let mut s = String::from_str("Failed to analyze video: ");
                s.append(m.as_str());
                s
            },
            ObsCutterError::NoVideoStream => String::from_str("No video stream found in file"),
            ObsCutterError::InvalidDimensions { width, height } => {
                let mut s = String::from_str("Invalid video dimensions: ");
                let w = u64_to_string(*width as u64);
                s.append(w.as_str());
                s.append("x");
                let h = u64_to_string(*height as u64);
                s.append(h.as_str());
                s
            },
            ObsCutterError::InvalidQuality(q) => {
                let mut s = String::from_str("Invalid quality preset: ");
                s.append(q.as_str());
                s.append(". Valid options: lossless, high, medium");
                s
            },
            ObsCutterError::InvalidSide(q) => {
                let mut s = String::from_str("Invalid side: ");
                s.append(q.as_str());
                s.append(". Valid options: left, right");
                s
            },
            ObsCutterError::FfmpegFailed(m) => {
                let mut s = String::from_str("FFmpeg processing failed: ");
                s.append(m.as_str());
                s
            },
            ObsCutterError::OutputDirectoryError(m) => {
                let mut s = String::from_str("Failed to create output directory: ");
                s.append(m.as_str());
                s
            },
            ObsCutterError::IoError(m) => {
                let mut s = String::from_str("IO error: ");
                s.append(m.as_str());
                s
            },
            ObsCutterError::JsonError(m) => {
                let mut s = String::from_str("JSON parsing error: ");
                s.append(m.as_str());
                s
            },
            ObsCutterError::Cancelled => String::from_str("Processing was cancelled"),
        }
    }
}

} // verus!
