//! Tests for stream selection, invocation building, chunk handling and
//! formatting.

use obs_cutter::config::Quality;
use obs_cutter::config::Side;
use obs_cutter::encoder::HardwareEncoder;
use obs_cutter::error::ObsCutterError;
use obs_cutter::progress::FfmpegProgressParser;
use obs_cutter::video::build_split_args;
use obs_cutter::video::feed_chunk;
use obs_cutter::video::format_duration;
use obs_cutter::video::format_file_size;
use obs_cutter::video::gcd;
use obs_cutter::video::output_file_name;
use obs_cutter::video::parse_probe_duration;
use obs_cutter::video::select_video_stream;
use obs_cutter::video::split_fragments;
use obs_cutter::video::StreamInfo;
use obs_cutter::video::VideoInfo;

fn stream(codec_type: Option<&str>, w: Option<u32>, h: Option<u32>, name: &str) -> StreamInfo {
    StreamInfo {
        width: w,
        height: h,
        codec_name: name.to_string(),
        codec_type: codec_type.map(|t| t.to_string()),
    }
}

#[test]
fn test_select_first_video_stream() {
    let streams = vec![
        stream(Some("audio"), None, None, "aac"),
        stream(Some("video"), None, None, "mjpeg"), // no dimensions: skipped
        stream(Some("video"), Some(3840), Some(1080), "h264"),
        stream(Some("video"), Some(1920), Some(1080), "h265"),
    ];
    let info = select_video_stream(&streams, "in.mov", Some(42)).unwrap();
    assert_eq!(info.width, 3840);
    assert_eq!(info.height, 1080);
    assert_eq!(info.codec, "h264");
    assert_eq!(info.path, "in.mov");
    assert_eq!(info.file_size, Some(42));
}

#[test]
fn test_select_video_stream_absent_is_hard_failure() {
    let streams = vec![stream(Some("audio"), None, None, "aac")];
    match select_video_stream(&streams, "in.mov", None) {
        Err(ObsCutterError::NoVideoStream) => {},
        other => panic!("expected NoVideoStream, got {:?}", other),
    }
    match select_video_stream(&Vec::new(), "in.mov", None) {
        Err(ObsCutterError::NoVideoStream) => {},
        other => panic!("expected NoVideoStream, got {:?}", other),
    }
}

#[test]
fn test_valid_dimensions_and_aspect_ratio() {
    let info = VideoInfo {
        path: "in.mov".to_string(),
        width: 3840,
        height: 1080,
        codec: "h264".to_string(),
        file_size: None,
    };
    assert!(info.is_valid_dimensions());
    assert_eq!(info.aspect_ratio(), "32:9");

    let info = VideoInfo { width: 1920, ..info };
    assert!(!info.is_valid_dimensions());
    assert_eq!(info.aspect_ratio(), "16:9");
}

#[test]
fn test_gcd() {
    assert_eq!(gcd(3840, 1080), 120);
    assert_eq!(gcd(7, 0), 7);
    assert_eq!(gcd(0, 9), 9);
    assert_eq!(gcd(12, 18), 6);
}

#[test]
fn test_build_split_args_shape() {
    let args = build_split_args("in.mov", "out-left.mp4", Side::Left, Quality::High,
        &HardwareEncoder::Software);
    assert_eq!(
        args,
        vec![
            "-i",
            "in.mov",
            "-vf",
            "crop=1920:1080:0:0",
            "-c:v",
            "libx264",
            "-crf",
            "18",
            "-preset",
            "slow",
            "-c:a",
            "copy",
            "-y",
            "out-left.mp4",
        ]
    );
}

#[test]
fn test_output_file_name() {
    assert_eq!(output_file_name("recording", Side::Left, "mp4"), "recording-left.mp4");
    assert_eq!(output_file_name("recording", Side::Right, "mov"), "recording-right.mov");
}

#[test]
fn test_split_fragments_on_cr_and_lf() {
    // the engine overwrites its status line with carriage returns; both
    // separators recover discrete lines, empty fragments are discarded
    let out = split_fragments("first\r\nsecond\rthird\nfourth");
    assert_eq!(out, vec!["first", "second", "third", "fourth"]);
    let out = split_fragments("\r\n\r\r");
    assert!(out.is_empty());
    let out = split_fragments("lone");
    assert_eq!(out, vec!["lone"]);
}

#[test]
fn test_feed_chunk_emits_snapshots_in_order() {
    let mut parser = FfmpegProgressParser::new();
    let chunk = "Duration: 00:01:30.00\rframe=1 time=00:00:10.00 speed=1.00x\rnoise\rframe=2 time=00:00:20.00 speed=1.00x\n";
    let out = feed_chunk(&mut parser, chunk);
    assert_eq!(out.len(), 2);
    assert_eq!(out[0].current_frame, 1);
    assert_eq!(out[0].current_time_centis, 1000);
    assert_eq!(out[1].current_frame, 2);
    assert_eq!(out[1].current_time_centis, 2000);
    // the duration line of the same chunk was latched before the snapshots
    assert_eq!(out[0].total_duration_centis, 9000);
    assert_eq!(parser.total_duration_centis, 9000);
}

#[test]
fn test_parse_probe_duration() {
    assert_eq!(parse_probe_duration("645.200000\n"), Some(64520));
    assert_eq!(parse_probe_duration("  90  "), Some(9000));
    assert_eq!(parse_probe_duration("0.5"), Some(50));
    assert_eq!(parse_probe_duration("1.999"), Some(199)); // truncated, not rounded
    assert_eq!(parse_probe_duration("abc"), None);
    assert_eq!(parse_probe_duration(""), None);
    assert_eq!(parse_probe_duration("12 34"), None);
}

#[test]
fn test_format_file_size() {
    assert_eq!(format_file_size(500), "500 B");
    assert_eq!(format_file_size(2048), "2.00 KB");
    assert_eq!(format_file_size(1536 * 1024 * 1024), "1.50 GB");
    assert_eq!(format_file_size(5 * 1024 * 1024), "5.00 MB");
    assert_eq!(format_file_size(0), "0 B");
}

#[test]
fn test_format_duration() {
    assert_eq!(format_duration(59), "59s");
    assert_eq!(format_duration(61), "1m 1s");
    assert_eq!(format_duration(3661), "1h 1m 1s");
    assert_eq!(format_duration(0), "0s");
}
