//! Tests for capability detection, argument planning and configuration.

use obs_cutter::config::ProcessingConfig;
use obs_cutter::config::Quality;
use obs_cutter::config::Side;
use obs_cutter::encoder::detect_hardware_encoder;
use obs_cutter::encoder::get_codec_args;
use obs_cutter::encoder::HardwareEncoder;
use obs_cutter::error::ObsCutterError;

fn all_encoders() -> Vec<HardwareEncoder> {
    vec![
        HardwareEncoder::VideoToolbox,
        HardwareEncoder::Nvenc,
        HardwareEncoder::QuickSync,
        HardwareEncoder::Amf,
        HardwareEncoder::Software,
    ]
}

#[test]
fn test_planner_total_with_codec_and_audio_copy() {
    // every (quality, capability) pair plans a non-empty argument list with
    // exactly one video-codec selection and an audio stream-copy directive
    for encoder in all_encoders() {
        for quality in Quality::all() {
            let args = get_codec_args(quality.as_str(), &encoder);
            assert!(!args.is_empty());
            let cv = args.iter().filter(|a| a.as_str() == "-c:v").count();
            assert_eq!(cv, 1);
            let n = args.len();
            assert_eq!(args[n - 2], "-c:a");
            assert_eq!(args[n - 1], "copy");
        }
    }
    // an unknown quality name is also planned (most quality-preserving tier)
    let args = get_codec_args("anything", &HardwareEncoder::Software);
    assert_eq!(args, vec!["-c:v", "libx264", "-crf", "0", "-preset", "veryslow", "-c:a", "copy"]);
}

#[test]
fn test_software_codec_args_by_quality() {
    let e = HardwareEncoder::Software;
    assert_eq!(
        get_codec_args("high", &e),
        vec!["-c:v", "libx264", "-crf", "18", "-preset", "slow", "-c:a", "copy"]
    );
    assert_eq!(
        get_codec_args("medium", &e),
        vec!["-c:v", "libx264", "-crf", "23", "-preset", "medium", "-c:a", "copy"]
    );
}

#[test]
fn test_videotoolbox_codec_args() {
    let e = HardwareEncoder::VideoToolbox;
    assert_eq!(
        get_codec_args("lossless", &e),
        vec!["-c:v", "h264_videotoolbox", "-b:v", "25M", "-allow_sw", "1", "-c:a", "copy"]
    );
    assert_eq!(
        get_codec_args("medium", &e),
        vec!["-c:v", "h264_videotoolbox", "-b:v", "10M", "-allow_sw", "1", "-c:a", "copy"]
    );
}

#[test]
fn test_nvenc_codec_args() {
    let e = HardwareEncoder::Nvenc;
    assert_eq!(
        get_codec_args("high", &e),
        vec!["-c:v", "h264_nvenc", "-preset", "p7", "-cq", "18", "-c:a", "copy"]
    );
    assert_eq!(
        get_codec_args("medium", &e),
        vec!["-c:v", "h264_nvenc", "-preset", "p4", "-cq", "23", "-c:a", "copy"]
    );
}

#[test]
fn test_amf_codec_args() {
    let e = HardwareEncoder::Amf;
    assert_eq!(
        get_codec_args("high", &e),
        vec!["-c:v", "h264_amf", "-rc", "cqp", "-qp_i", "18", "-qp_p", "18", "-c:a", "copy"]
    );
}

#[test]
fn test_quicksync_codec_args() {
    let e = HardwareEncoder::QuickSync;
    assert_eq!(
        get_codec_args("lossless", &e),
        vec!["-c:v", "h264_qsv", "-global_quality", "15", "-look_ahead", "1", "-c:a", "copy"]
    );
}

#[test]
fn test_detect_prefers_order() {
    let listing = "h264_videotoolbox h264_nvenc h264_qsv h264_amf";
    assert_eq!(detect_hardware_encoder(true, listing), HardwareEncoder::VideoToolbox);
    // the platform-native backend is only attempted on its owning platform
    assert_eq!(detect_hardware_encoder(false, listing), HardwareEncoder::Nvenc);
    assert_eq!(detect_hardware_encoder(false, "x h264_qsv y h264_amf"), HardwareEncoder::QuickSync);
    assert_eq!(detect_hardware_encoder(false, "h264_amf only"), HardwareEncoder::Amf);
}

#[test]
fn test_detect_falls_back_to_software() {
    // a failed probe hands in an empty listing: software, never an error
    assert_eq!(detect_hardware_encoder(true, ""), HardwareEncoder::Software);
    assert_eq!(detect_hardware_encoder(false, "libx264 libx265"), HardwareEncoder::Software);
}

#[test]
fn test_encoder_names() {
    assert_eq!(HardwareEncoder::VideoToolbox.h264_encoder(), "h264_videotoolbox");
    assert_eq!(HardwareEncoder::Nvenc.h264_encoder(), "h264_nvenc");
    assert_eq!(HardwareEncoder::QuickSync.h264_encoder(), "h264_qsv");
    assert_eq!(HardwareEncoder::Amf.h264_encoder(), "h264_amf");
    assert_eq!(HardwareEncoder::Software.h264_encoder(), "libx264");
    assert_eq!(HardwareEncoder::Software.name(), "Software (libx264)");
    assert!(HardwareEncoder::Nvenc.is_hardware());
    assert!(!HardwareEncoder::Software.is_hardware());
    assert_eq!(HardwareEncoder::default(), HardwareEncoder::Software);
}

#[test]
fn test_quality_names_and_parse() {
    assert_eq!(Quality::Lossless.as_str(), "lossless");
    assert_eq!(Quality::High.as_str(), "high");
    assert_eq!(Quality::Medium.as_str(), "medium");
    assert_eq!(Quality::all(), vec![Quality::Lossless, Quality::High, Quality::Medium]);

    assert_eq!(Quality::parse_name("lossless").unwrap(), Quality::Lossless);
    assert_eq!(Quality::parse_name("HIGH").unwrap(), Quality::High);
    assert_eq!("Medium".parse::<Quality>().unwrap(), Quality::Medium);
    match Quality::parse_name("ultra") {
        Err(ObsCutterError::InvalidQuality(s)) => assert_eq!(s, "ultra"),
        other => panic!("expected InvalidQuality, got {:?}", other),
    }
}

#[test]
fn test_side_names_and_parse() {
    assert_eq!(Side::Left.as_str(), "left");
    assert_eq!(Side::Right.as_str(), "right");
    assert_eq!(Side::Left.crop_filter(), "crop=1920:1080:0:0");
    assert_eq!(Side::Right.crop_filter(), "crop=1920:1080:1920:0");

    assert_eq!(Side::parse_name("Left").unwrap(), Side::Left);
    assert_eq!("RIGHT".parse::<Side>().unwrap(), Side::Right);
    match Side::parse_name("middle") {
        Err(ObsCutterError::InvalidSide(s)) => assert_eq!(s, "middle"),
        other => panic!("expected InvalidSide, got {:?}", other),
    }
}

#[test]
fn test_processing_config_builders() {
    let c = ProcessingConfig::new();
    assert_eq!(c.quality, Quality::Lossless);
    assert!(c.output_format.is_none());
    assert!(c.output_dir.is_none());
    assert!(c.use_hardware_accel);

    let c = ProcessingConfig::new()
        .with_quality(Quality::Medium)
        .with_output_format(Some("mp4".to_string()))
        .with_output_dir(Some("/tmp/out".to_string()))
        .with_hardware_accel(false);
    assert_eq!(c.quality, Quality::Medium);
    assert_eq!(c.output_format.as_deref(), Some("mp4"));
    assert_eq!(c.output_dir.as_deref(), Some("/tmp/out"));
    assert!(!c.use_hardware_accel);
}

#[test]
fn test_error_messages() {
    assert_eq!(
        ObsCutterError::FfmpegNotFound.message(),
        "FFmpeg is not installed or not found in PATH"
    );
    assert_eq!(
        ObsCutterError::VideoNotFound("a.mp4".to_string()).message(),
        "Video file not found: a.mp4"
    );
    assert_eq!(
        ObsCutterError::InvalidDimensions { width: 1920, height: 1080 }.message(),
        "Invalid video dimensions: 1920x1080"
    );
    assert_eq!(
        ObsCutterError::InvalidQuality("ultra".to_string()).message(),
        "Invalid quality preset: ultra. Valid options: lossless, high, medium"
    );
    assert_eq!(
        ObsCutterError::InvalidSide("middle".to_string()).message(),
        "Invalid side: middle. Valid options: left, right"
    );
    assert_eq!(ObsCutterError::NoVideoStream.message(), "No video stream found in file");
    assert_eq!(
        ObsCutterError::FfmpegFailed("boom".to_string()).message(),
        "FFmpeg processing failed: boom"
    );
    assert_eq!(ObsCutterError::Cancelled.message(), "Processing was cancelled");
}
