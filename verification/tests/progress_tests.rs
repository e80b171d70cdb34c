//! Tests for the streaming progress parser.

use obs_cutter::progress::parse_duration;
use obs_cutter::progress::parse_progress_line;
use obs_cutter::progress::EncodingProgress;
use obs_cutter::progress::FfmpegProgressParser;

#[test]
fn test_parse_duration() {
    let line = "  Duration: 00:10:45.20, start: 0.000000, bitrate: 5000 kb/s";
    let duration = parse_duration(line).unwrap();
    let secs = duration as f64 / 100.0;
    assert!((secs - 645.20).abs() < 0.01);
}

#[test]
fn test_parse_progress_line() {
    let line = "frame= 1234 fps= 45.0 q=28.0 size=  18234kB time=00:00:45.67 bitrate=3265.5kbits/s speed=1.23x";
    let progress = parse_progress_line(line, 64520).unwrap();

    assert_eq!(progress.current_frame, 1234);
    assert!(((progress.fps_centis as f64 / 100.0) - 45.0).abs() < 0.1);
    assert!(((progress.speed_centis as f64 / 100.0) - 1.23).abs() < 0.01);
    assert!(((progress.current_time_centis as f64 / 100.0) - 45.67).abs() < 0.01);
    assert!(((progress.percent_hundredths as f64 / 100.0) - 7.08).abs() < 0.1); // 45.67 / 645.20 * 100
}

#[test]
fn test_parser_state() {
    let mut parser = FfmpegProgressParser::new();

    // First, feed the duration line
    let duration_line = "  Duration: 00:01:30.00, start: 0.000000, bitrate: 5000 kb/s";
    parser.parse_line(duration_line);
    assert!(parser.duration_found);
    assert!(((parser.total_duration_centis as f64 / 100.0) - 90.0).abs() < 0.01);

    // Then feed a progress line
    let progress_line = "frame=  500 fps= 30.0 size=   1024kB time=00:00:30.00 speed=2.00x";
    let progress = parser.parse_line(progress_line).unwrap();

    assert_eq!(progress.current_frame, 500);
    assert!(((progress.percent_hundredths as f64 / 100.0) - 33.33).abs() < 0.1); // 30 / 90 * 100
}

#[test]
fn test_eta_calculation() {
    let progress = EncodingProgress {
        current_time_centis: 3000,
        total_duration_centis: 9000,
        speed_centis: 200,
        ..Default::default()
    };

    // Remaining: 60 secs, Speed: 2x, ETA: 30 secs
    let eta = progress.eta_centis().unwrap();
    assert!(((eta as f64 / 100.0) - 30.0).abs() < 0.1);
}

#[test]
fn test_time_parsing_two_digit_fraction() {
    // "00:10:45.20" denotes 645.20 seconds
    let d = parse_duration("Duration: 00:10:45.20").unwrap();
    assert_eq!(d, 64520);
}

#[test]
fn test_time_parsing_short_fraction() {
    // "01:00:00.5" denotes 3600.50 seconds
    let p = parse_progress_line("time=01:00:00.5 bitrate=1kbits/s", 0).unwrap();
    assert_eq!(p.current_time_centis, 360050);
}

#[test]
fn test_time_parsing_three_digit_fraction_truncates() {
    // only the first two fraction digits are significant: .999 is 99 hundredths
    let p = parse_progress_line("time=00:00:01.999 x", 0).unwrap();
    assert_eq!(p.current_time_centis, 199);
}

#[test]
fn test_line_without_time_yields_no_snapshot() {
    // frame=, fps= and speed= alone do not make a progress line
    let r = parse_progress_line("frame=  500 fps= 30.0 speed=2.00x", 9000);
    assert!(r.is_none());
}

#[test]
fn test_duration_line_yields_no_snapshot() {
    let mut parser = FfmpegProgressParser::new();
    let r = parser.parse_line("  Duration: 00:01:30.00, start: 0.000000");
    assert!(r.is_none());
}

#[test]
fn test_duration_latch_keeps_first_value() {
    let mut parser = FfmpegProgressParser::new();
    parser.parse_line("  Duration: 00:01:30.00, start: 0.000000");
    assert_eq!(parser.total_duration_centis, 9000);

    // a second, different duration line must not change the latch
    parser.parse_line("  Duration: 00:02:00.00, start: 0.000000");
    assert_eq!(parser.total_duration_centis, 9000);
    assert!(parser.duration_found);

    // snapshots all share the latched total
    for _ in 0..3 {
        let p = parser
            .parse_line("frame=  500 fps= 30.0 time=00:00:30.00 speed=2.00x")
            .unwrap();
        assert_eq!(p.total_duration_centis, 9000);
    }
}

#[test]
fn test_seeded_parser_ignores_duration_lines() {
    let mut parser = FfmpegProgressParser::with_duration(4500);
    parser.parse_line("  Duration: 00:01:30.00, start: 0.000000");
    assert_eq!(parser.total_duration_centis, 4500);
}

#[test]
fn test_percentage_clamps_at_hundred() {
    // total 90 s, current 120 s: pathological overrun clamps to 100%
    let p = parse_progress_line("time=00:02:00.00", 9000).unwrap();
    assert_eq!(p.percent_hundredths, 10000);
}

#[test]
fn test_percentage_exact_value() {
    let p = parse_progress_line("time=00:00:30.00", 9000).unwrap();
    assert_eq!(p.percent_hundredths, 3333); // 33.33%
}

#[test]
fn test_no_duration_line_still_parses_progress() {
    // a stream that never emits a duration line still yields snapshots,
    // with percentage pinned at 0 and the ETA undefined
    let mut parser = FfmpegProgressParser::new();
    let p = parser
        .parse_line("frame=  500 fps= 30.0 time=00:00:30.00 speed=2.00x")
        .unwrap();
    assert_eq!(p.total_duration_centis, 0);
    assert_eq!(p.percent_hundredths, 0);
    assert!(p.eta_centis().is_none());
}

#[test]
fn test_missing_fields_default_to_zero() {
    let p = parse_progress_line("time=00:00:30.00", 9000).unwrap();
    assert_eq!(p.current_frame, 0);
    assert_eq!(p.fps_centis, 0);
    assert_eq!(p.speed_centis, 0);
}

#[test]
fn test_malformed_numeric_fields_fall_back_to_zero() {
    // an over-large frame count and a double-dotted rate read as zero
    let line = "frame=99999999999999999999999999 fps= 1.2.3 time=00:00:30.00 speed=2.00x";
    let p = parse_progress_line(line, 9000).unwrap();
    assert_eq!(p.current_frame, 0);
    assert_eq!(p.fps_centis, 0);
    assert_eq!(p.speed_centis, 200);
}

#[test]
fn test_speed_requires_trailing_x() {
    let p = parse_progress_line("time=00:00:30.00 speed=2.00", 9000).unwrap();
    assert_eq!(p.speed_centis, 0);
}

#[test]
fn test_eta_thirty_seconds() {
    // current 30 s, total 90 s, speed 2.0x: ETA is exactly 30.0 seconds
    let p = EncodingProgress {
        current_time_centis: 3000,
        total_duration_centis: 9000,
        speed_centis: 200,
        ..Default::default()
    };
    assert_eq!(p.eta_centis(), Some(3000));
}

#[test]
fn test_eta_undefined_when_speed_zero() {
    let p = EncodingProgress {
        current_time_centis: 3000,
        total_duration_centis: 9000,
        speed_centis: 0,
        ..Default::default()
    };
    assert!(p.eta_centis().is_none());
    assert_eq!(p.eta_string(), "calculating...");
}

#[test]
fn test_eta_floors_at_zero_past_the_end() {
    let p = EncodingProgress {
        current_time_centis: 9500,
        total_duration_centis: 9000,
        speed_centis: 100,
        ..Default::default()
    };
    assert_eq!(p.eta_centis(), Some(0));
}

#[test]
fn test_eta_string_formats() {
    let mut p = EncodingProgress {
        current_time_centis: 3000,
        total_duration_centis: 9000,
        speed_centis: 200,
        ..Default::default()
    };
    assert_eq!(p.eta_string(), "~30s");

    // remaining 180 s at 1x: 3:00
    p.current_time_centis = 0;
    p.total_duration_centis = 18000;
    p.speed_centis = 100;
    assert_eq!(p.eta_string(), "~3:00");

    // remaining 3900 s at 1x: 1h 05m
    p.total_duration_centis = 390000;
    assert_eq!(p.eta_string(), "~1h 05m");
}
