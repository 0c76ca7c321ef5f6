use clipforge::errors::{ErrorKind, VideoError};
use clipforge::recording::{
    display_sources, get_recording_duration, get_screen_sources, is_recording, recording_saved,
    spawn_failure, start_screen_recording, stop_recording, DisplayInfo, RecordingOptions, RecordingState,
};
use clipforge::transcription::{audio_file, extract_audio, has_audio_stream, TranscriptionResponse};
use clipforge::thumbnail::{generate_thumbnail, thumbnail_path_for_digest, thumbnail_result, ThumbnailStep};

fn options(include_audio: bool) -> RecordingOptions {
    RecordingOptions { include_audio, audio_device: None }
}

#[test]
fn start_while_active_is_refused() {
    let mut s = RecordingState::new();
    assert!(start_screen_recording(&s, "display_1", &options(false), "/r/a.mp4", true).is_ok());
    s.mark_started("/r/a.mp4".to_string(), 1000);
    let e = start_screen_recording(&s, "display_2", &options(false), "/r/b.mp4", true).unwrap_err();
    assert_eq!(e.kind, ErrorKind::AlreadyRecording);
}

#[test]
fn stop_while_idle_is_refused() {
    let mut s = RecordingState::new();
    let e = stop_recording(&mut s).unwrap_err();
    assert_eq!(e.kind, ErrorKind::NotRecording);
}

#[test]
fn full_cycle_is_observed() {
    let mut s = RecordingState::new();
    assert!(!is_recording(&s));
    assert_eq!(get_recording_duration(&s, 5000), 0);
    s.mark_started("/r/a.mp4".to_string(), 1000);
    assert!(is_recording(&s));
    assert_eq!(get_recording_duration(&s, 4500), 3500);
    assert_eq!(stop_recording(&mut s).unwrap(), "/r/a.mp4");
    assert!(!is_recording(&s));
    assert_eq!(get_recording_duration(&s, 9000), 0);
    assert_eq!(stop_recording(&mut s).unwrap_err().kind, ErrorKind::NotRecording);
}

#[test]
fn unsupported_platform_always_fails() {
    let s = RecordingState::new();
    let e = start_screen_recording(&s, "screen_0", &options(true), "/r/a.mp4", false).unwrap_err();
    assert_eq!(e.kind, ErrorKind::UnsupportedPlatform);
}

#[test]
fn capture_arguments() {
    let s = RecordingState::new();
    let with_audio = start_screen_recording(&s, "display_2", &options(true), "/r/a.mp4", true).unwrap();
    assert_eq!(
        with_audio,
        vec![
            "-f", "avfoundation", "-capture_cursor", "1", "-capture_mouse_clicks", "1", "-r", "30", "-i",
            "2:0", "-c:v", "libx264", "-preset", "ultrafast", "-crf", "23", "-pix_fmt", "yuv420p", "-c:a",
            "aac", "-b:a", "128k", "/r/a.mp4",
        ]
    );
    let silent = start_screen_recording(&s, "screen", &options(false), "/r/a.mp4", true).unwrap();
    assert_eq!(silent[9], "screen");
    assert_eq!(silent.len(), 19);
}

#[test]
fn saved_output_is_checked() {
    assert_eq!(recording_saved("/r/a.mp4".to_string(), true).unwrap(), "/r/a.mp4");
    let e = recording_saved("/r/a.mp4".to_string(), false).unwrap_err();
    assert_eq!(e.kind, ErrorKind::OutputMissing);
    assert_eq!(e.message, "Recording file was not created: /r/a.mp4");
    let e = spawn_failure("not found");
    assert_eq!(e.kind, ErrorKind::SpawnFailed);
}

#[test]
fn sources() {
    let s = get_screen_sources();
    assert_eq!(s.len(), 1);
    assert_eq!(s[0].id, "screen_0");
    assert_eq!(s[0].name, "Primary Display");
    assert!(!s[0].is_window);
    let d = display_sources(&vec![
        DisplayInfo { id: 69733382, width: 1920, height: 1080 },
        DisplayInfo { id: 2, width: 2560, height: 1440 },
    ]);
    assert_eq!(d[0].id, "display_69733382");
    assert_eq!(d[0].name, "Display 1 (1920x1080)");
    assert_eq!(d[1].name, "Display 2 (2560x1440)");
    assert!(display_sources(&vec![]).is_empty());
}

#[test]
fn thumbnail_is_named_by_path_digest() {
    match generate_thumbnail("abc", "/t", true, true, true) {
        ThumbnailStep::Ready(output) => assert_eq!(output, "/t/900150983cd24fb0d6963f7d28e17f72.jpg"),
        other => panic!("unexpected {:?}", other),
    }
    match generate_thumbnail("abc", "/t", true, true, false) {
        ThumbnailStep::Make { output, args } => {
            assert_eq!(output, "/t/900150983cd24fb0d6963f7d28e17f72.jpg");
            assert_eq!(args[2], "abc");
            assert_eq!(args[args.len() - 1], output);
        }
        other => panic!("unexpected {:?}", other),
    }
    assert_eq!(thumbnail_path_for_digest("/t", &vec![0x00, 0xff, 0x1a]), "/t/00ff1a.jpg");
}

#[test]
fn thumbnail_failures() {
    match generate_thumbnail("abc", "/t", false, true, false) {
        ThumbnailStep::Fail(e) => assert_eq!(e.kind, ErrorKind::FileNotFound),
        other => panic!("unexpected {:?}", other),
    }
    match generate_thumbnail("abc", "/t", true, false, false) {
        ThumbnailStep::Fail(e) => assert_eq!(e.kind, ErrorKind::EngineMissing),
        other => panic!("unexpected {:?}", other),
    }
    let e = thumbnail_result("/t/x.jpg".to_string(), false, "oops").unwrap_err();
    assert_eq!(e.message, "FFmpeg thumbnail generation failed: oops");
}

#[test]
fn audio_detection_and_extraction() {
    assert!(has_audio_stream("audio\n"));
    assert!(has_audio_stream("  audio \r\n"));
    assert!(!has_audio_stream(""));
    assert!(!has_audio_stream("video"));
    assert!(!has_audio_stream("audio\naudio"));
    assert!(has_audio_stream("audio\u{b}"));
    assert!(has_audio_stream("\u{3000}audio\u{85}"));
    assert!(!has_audio_stream("audio\u{200b}"));
    assert!(extract_audio("/v.mp4", "", "/tmp/a.mp3").is_err());
    let args = extract_audio("/v.mp4", "audio\n", "/tmp/a.mp3").unwrap();
    assert_eq!(args[1], "/v.mp4");
    assert_eq!(args[args.len() - 1], "/tmp/a.mp3");
    assert_eq!(audio_file(1700000000123), "/tmp/clipforge_audio_1700000000123.mp3");
    let t = TranscriptionResponse { text: "hi".to_string() };
    assert_eq!(t.text, "hi");
}

#[test]
fn error_message_is_reported() {
    let e = VideoError::new(ErrorKind::EmptyJob, "No clips to export".to_string());
    assert_eq!(e.to_message(), "No clips to export");
    assert_eq!(e.duplicate().message, "No clips to export");
}
