use clipforge::errors::ErrorKind;
use clipforge::numbers::{parse_duration_ms, parse_frame_rate, FrameRate};
use clipforge::paths::{needs_normalizing, normalized_file};
use clipforge::probe::{
    conversion_result, convert_mov_to_mp4, fallback_metadata, import_video, interpret_probe, probe_command,
    probe_result, ConvertStep, ImportStep,
};

fn fps(r: FrameRate) -> f64 {
    r.num as f64 / r.den as f64
}

#[test]
fn frame_rate_whole() {
    let r = parse_frame_rate("30/1");
    assert_eq!(r, FrameRate { num: 30, den: 1 });
    assert_eq!(fps(r), 30.0);
}

#[test]
fn frame_rate_ntsc() {
    let r = parse_frame_rate("30000/1001");
    assert_eq!(r, FrameRate { num: 30000, den: 1001 });
    assert!((fps(r) - 29.97).abs() < 0.001);
}

#[test]
fn frame_rate_with_decimal_parts() {
    assert_eq!(fps(parse_frame_rate("60.0/1")), 60.0);
    let r = parse_frame_rate("60.5/1");
    assert_eq!(r.num as u128 * 2, r.den as u128 * 121);
    assert!((fps(parse_frame_rate("29.97/1")) - 29.97).abs() < 1e-9);
    assert_eq!(fps(parse_frame_rate("30/1.0")), 30.0);
    assert_eq!(fps(parse_frame_rate(".5/1")), 0.5);
    assert_eq!(fps(parse_frame_rate("0/1")), 0.0);
}

#[test]
fn frame_rate_with_sign_and_exponent() {
    assert_eq!(fps(parse_frame_rate("-30/1")), -30.0);
    assert_eq!(fps(parse_frame_rate("30/-1")), -30.0);
    assert_eq!(fps(parse_frame_rate("-30/-1")), 30.0);
    assert_eq!(fps(parse_frame_rate("+30/1")), 30.0);
    assert_eq!(fps(parse_frame_rate("6e1/1")), 60.0);
    assert_eq!(fps(parse_frame_rate("6E+1/1")), 60.0);
    assert!((fps(parse_frame_rate("2997e-2/1")) - 29.97).abs() < 1e-9);
    assert_eq!(fps(parse_frame_rate("60/1e0")), 60.0);
    assert_eq!(fps(parse_frame_rate("0e99999999999999999999/1")), 30.0);
    assert_eq!(fps(parse_frame_rate("0e5/1")), 0.0);
}

#[test]
fn frame_rate_malformed_gives_default() {
    for s in ["", "abc", "30", "30/", "/1", "30/0", "30/0.0", "./1", "1/2/3", "1..0/1", "3 0/1", "+-30/1", "1e/1", "e1/1", "inf/1", "NaN/1",
              "1e99/1", "99999999999999999999/1"] {
        assert_eq!(parse_frame_rate(s), FrameRate { num: 30, den: 1 }, "input {:?}", s);
    }
}

#[test]
fn duration_parsing() {
    assert_eq!(parse_duration_ms("60.5"), 60500);
    assert_eq!(parse_duration_ms("12.345678"), 12345);
    assert_eq!(parse_duration_ms("7"), 7000);
    assert_eq!(parse_duration_ms("7."), 7000);
    assert_eq!(parse_duration_ms("0.04"), 40);
    assert_eq!(parse_duration_ms(""), 60000);
    assert_eq!(parse_duration_ms("N/A"), 60000);
    assert_eq!(parse_duration_ms(".5"), 500);
    assert_eq!(parse_duration_ms("."), 60000);
    assert_eq!(parse_duration_ms("1e2"), 100000);
    assert_eq!(parse_duration_ms("2.5E-1"), 250);
    assert_eq!(parse_duration_ms("-1.5"), -1500);
    assert_eq!(parse_duration_ms("1e-30"), 0);
    assert_eq!(parse_duration_ms("inf"), 60000);
    assert_eq!(parse_duration_ms("1.2.3"), 60000);
}

const SAMPLE: &str = r#"{
  "programs": [],
  "streams": [{"codec_name": "hevc", "width": 3840, "height": 2160, "r_frame_rate": "30000/1001"}],
  "format": {"duration": "125.250000"}
}"#;

#[test]
fn probe_output_is_read() {
    let m = interpret_probe("/v/a.mp4".to_string(), 1234, SAMPLE).unwrap();
    assert_eq!(m.path, "/v/a.mp4");
    assert_eq!(m.size, 1234);
    assert_eq!(m.width, 3840);
    assert_eq!(m.height, 2160);
    assert_eq!(m.codec, "hevc");
    assert_eq!(m.fps, FrameRate { num: 30000, den: 1001 });
    assert_eq!(m.duration, 125250);
}

#[test]
fn probe_output_missing_fields_take_defaults() {
    let m = interpret_probe("/v/a.mp4".to_string(), 0, r#"{"streams": [{}]}"#).unwrap();
    assert_eq!((m.width, m.height), (1920, 1080));
    assert_eq!(m.codec, "h264");
    assert_eq!(m.fps, FrameRate { num: 30, den: 1 });
    assert_eq!(m.duration, 60000);
}

#[test]
fn probe_output_that_is_no_json_fails() {
    let e = interpret_probe("/v/a.mp4".to_string(), 0, "not json").unwrap_err();
    assert_eq!(e.kind, ErrorKind::ProbeParseError);
}

#[test]
fn probe_output_without_stream_fails() {
    let e = interpret_probe("/v/a.mp4".to_string(), 0, r#"{"streams": []}"#).unwrap_err();
    assert_eq!(e.kind, ErrorKind::ProbeParseError);
    let e = interpret_probe("/v/a.mp4".to_string(), 0, r#"{"format": {}}"#).unwrap_err();
    assert_eq!(e.kind, ErrorKind::ProbeParseError);
}

#[test]
fn probe_run_failures() {
    let e = probe_result("/v".to_string(), 0, false, false, "", "").unwrap_err();
    assert_eq!(e.kind, ErrorKind::ProbeExecutionError);
    let e = probe_result("/v".to_string(), 0, true, false, "", "no such file").unwrap_err();
    assert_eq!(e.kind, ErrorKind::ProbeExecutionError);
    assert_eq!(e.message, "FFprobe failed: no such file");
    assert!(probe_result("/v".to_string(), 0, true, true, SAMPLE, "").is_ok());
}

#[test]
fn probe_arguments() {
    assert_eq!(
        probe_command("/v/a.mp4"),
        vec![
            "-v", "error", "-select_streams", "v:0", "-show_entries",
            "stream=width,height,r_frame_rate,codec_name:format=duration", "-of", "json", "/v/a.mp4",
        ]
    );
}

#[test]
fn import_missing_file_fails_first() {
    match import_video("/none.mp4".to_string(), false, true) {
        ImportStep::Fail(e) => assert_eq!(e.kind, ErrorKind::FileNotFound),
        other => panic!("unexpected {:?}", other),
    }
}

#[test]
fn import_without_engine_gives_fallback() {
    match import_video("/v/a.mp4".to_string(), true, false) {
        ImportStep::Fallback(m) => {
            assert_eq!(m.path, "/v/a.mp4");
            assert_eq!((m.width, m.height), (1920, 1080));
            assert_eq!(m.fps, FrameRate { num: 30, den: 1 });
            assert_eq!(m.duration, 60000);
            assert_eq!(m.codec, "h264");
            assert_eq!(m.size, 0);
        }
        other => panic!("unexpected {:?}", other),
    }
    assert_eq!(fallback_metadata("/x".to_string()).duration, 60000);
}

#[test]
fn import_of_mov_normalizes_first() {
    assert!(matches!(import_video("/v/clip.MOV".to_string(), true, true), ImportStep::Normalize));
    assert!(matches!(import_video("/v/clip.mp4".to_string(), true, true), ImportStep::Probe));
}

#[test]
fn incompatible_container_detection() {
    assert!(needs_normalizing("/a/b/c.mov"));
    assert!(needs_normalizing("c.MoV"));
    assert!(!needs_normalizing("/a/b/c.mp4"));
    assert!(!needs_normalizing("/a/.mov"));
    assert!(!needs_normalizing("/a.mov/c"));
    assert!(!needs_normalizing("c.movie"));
}

#[test]
fn normalized_path_differs_from_input() {
    let input = "/home/u/Movies/take.mov";
    let out = normalized_file("/tmp/clipforge_converted", input);
    assert_eq!(out, "/tmp/clipforge_converted/take.mp4");
    assert_ne!(out, input);
    assert_eq!(normalized_file("/t", "/a/b.c.mov"), "/t/b.c.mp4");
    assert_eq!(normalized_file("/t", "/a/"), "/t/converted.mp4");
    assert_eq!(normalized_file("/t", "/a/.."), "/t/converted.mp4");
}

#[test]
fn normalization_is_cached_by_path() {
    match convert_mov_to_mp4("/v/take.mov", "/t", true) {
        ConvertStep::Ready(p) => assert_eq!(p, "/t/take.mp4"),
        other => panic!("unexpected {:?}", other),
    }
    match convert_mov_to_mp4("/v/take.mov", "/t", false) {
        ConvertStep::Run { output, args } => {
            assert_eq!(output, "/t/take.mp4");
            assert_eq!(args[2], "/v/take.mov");
            assert_eq!(args[args.len() - 1], "/t/take.mp4");
        }
        other => panic!("unexpected {:?}", other),
    }
    let e = conversion_result("/t/take.mp4".to_string(), false, "codec").unwrap_err();
    assert_eq!(e.kind, ErrorKind::ConversionError);
    assert_eq!(e.message, "FFmpeg conversion failed: codec");
    assert_eq!(conversion_result("/t/take.mp4".to_string(), true, "").unwrap(), "/t/take.mp4");
}
