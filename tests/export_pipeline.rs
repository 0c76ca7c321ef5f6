use clipforge::errors::ErrorKind;
use clipforge::export::{export_video, validate_clips, ClipConfig, ExportAction, ExportConfig, ExportPhase, ExportRun};
use clipforge::text::{decimal_string, seconds_string};

fn clip(source: &str, trim_start: u64, trim_end: u64) -> ClipConfig {
    ClipConfig {
        source_file: source.to_string(),
        start_time: 0,
        duration: 10_000,
        trim_start,
        trim_end,
    }
}

fn job(clips: Vec<ClipConfig>) -> ExportConfig {
    ExportConfig { clips, output_path: "/out/final.mp4".to_string() }
}

fn engine_args(run: &ExportRun) -> Vec<String> {
    match run.action() {
        ExportAction::RunEngine { args } => args,
        other => panic!("expected an engine run, got {:?}", other),
    }
}

#[test]
fn seconds_are_written_with_three_decimals() {
    assert_eq!(seconds_string(1500), "1.500");
    assert_eq!(seconds_string(0), "0.000");
    assert_eq!(seconds_string(65007), "65.007");
    assert_eq!(decimal_string(0), "0");
    assert_eq!(decimal_string(18446744073709551615), "18446744073709551615");
}

#[test]
fn empty_job_is_refused_before_any_run() {
    let r = export_video(job(vec![]), "/work".to_string());
    match r {
        Err(e) => assert_eq!(e.kind, ErrorKind::EmptyJob),
        Ok(_) => panic!("an empty job must be refused"),
    }
}

#[test]
fn single_clip_is_cut_straight_to_the_destination() {
    let mut run = export_video(job(vec![clip("/in/a.mp4", 1000, 3500)]), "/work".to_string()).unwrap();
    let args = engine_args(&run);
    assert_eq!(
        args,
        vec![
            "-y", "-ss", "1.000", "-i", "/in/a.mp4", "-t", "2.500", "-c:v", "libx264", "-preset", "fast",
            "-crf", "22", "-c:a", "aac", "-movflags", "+faststart", "/out/final.mp4",
        ]
    );
    run.on_engine_exit(true, String::new());
    assert_eq!(run.phase, ExportPhase::Finished);
    match run.action() {
        ExportAction::Finish { result, remove, remove_dir } => {
            assert_eq!(result.unwrap(), "/out/final.mp4");
            assert!(remove.is_empty());
            assert!(remove_dir.is_none());
        }
        other => panic!("expected the end, got {:?}", other),
    }
}

#[test]
fn single_clip_failure_leaves_nothing_to_remove() {
    let mut run = export_video(job(vec![clip("/in/a.mp4", 0, 1000)]), "/work".to_string()).unwrap();
    run.on_engine_exit(false, "boom".to_string());
    match run.action() {
        ExportAction::Finish { result, remove, remove_dir } => {
            let e = result.unwrap_err();
            assert_eq!(e.kind, ErrorKind::TrimFailed { index: 0 });
            assert_eq!(e.message, "FFmpeg trim failed for clip 0: boom");
            assert!(remove.is_empty());
            assert!(remove_dir.is_none());
        }
        other => panic!("expected the end, got {:?}", other),
    }
}

#[test]
fn two_clips_are_trimmed_listed_joined_and_cleaned_up() {
    let clips = vec![clip("/in/a.mp4", 0, 2000), clip("/in/b.mov", 500, 1250)];
    let mut run = export_video(job(clips), "/work".to_string()).unwrap();

    let first = engine_args(&run);
    assert_eq!(first[6], "2.000");
    assert_eq!(first[first.len() - 1], "/work/clip_0.mp4");
    run.on_engine_exit(true, String::new());

    let second = engine_args(&run);
    assert_eq!(second[2], "0.500");
    assert_eq!(second[4], "/in/b.mov");
    assert_eq!(second[6], "0.750");
    assert_eq!(second[second.len() - 1], "/work/clip_1.mp4");
    run.on_engine_exit(true, String::new());

    match run.action() {
        ExportAction::WriteManifest { path, contents } => {
            assert_eq!(path, "/work/concat_list.txt");
            assert_eq!(contents, "file '/work/clip_0.mp4'\nfile '/work/clip_1.mp4'");
        }
        other => panic!("expected the manifest, got {:?}", other),
    }
    run.on_manifest_written(true, String::new());

    let concat = engine_args(&run);
    assert_eq!(
        concat,
        vec![
            "-y", "-f", "concat", "-safe", "0", "-i", "/work/concat_list.txt", "-c:v", "libx264",
            "-preset", "fast", "-crf", "22", "-c:a", "aac", "-movflags", "+faststart", "/out/final.mp4",
        ]
    );
    run.on_engine_exit(true, String::new());
    match run.action() {
        ExportAction::Finish { result, remove, remove_dir } => {
            assert_eq!(result.unwrap(), "/out/final.mp4");
            assert_eq!(remove, vec!["/work/clip_0.mp4", "/work/clip_1.mp4", "/work/concat_list.txt"]);
            assert_eq!(remove_dir, Some("/work".to_string()));
        }
        other => panic!("expected the end, got {:?}", other),
    }
}

#[test]
fn spans_of_all_clips_add_up() {
    let clips = vec![clip("/a", 0, 1000), clip("/b", 2000, 4500), clip("/c", 100, 350)];
    let mut run = export_video(job(clips), "/w".to_string()).unwrap();
    let mut spans = Vec::new();
    let mut targets = Vec::new();
    while let ExportPhase::Trimming { .. } = run.phase {
        let args = engine_args(&run);
        spans.push(args[6].clone());
        targets.push(args[args.len() - 1].clone());
        run.on_engine_exit(true, String::new());
    }
    assert_eq!(spans, vec!["1.000", "2.500", "0.250"]);
    let total: f64 = spans.iter().map(|s| s.parse::<f64>().unwrap()).sum();
    assert!((total - 3.75).abs() < 1e-9);
    assert_eq!(targets, vec!["/w/clip_0.mp4", "/w/clip_1.mp4", "/w/clip_2.mp4"]);
    assert_eq!(run.phase, ExportPhase::WritingManifest);
}

#[test]
fn trim_failure_removes_the_intermediates_already_made() {
    let clips = vec![clip("/a", 0, 1000), clip("/b", 0, 1000), clip("/c", 0, 1000)];
    let mut run = export_video(job(clips), "/w".to_string()).unwrap();
    run.on_engine_exit(true, String::new());
    run.on_engine_exit(false, "bad input".to_string());
    match run.action() {
        ExportAction::Finish { result, remove, remove_dir } => {
            let e = result.unwrap_err();
            assert_eq!(e.kind, ErrorKind::TrimFailed { index: 1 });
            assert_eq!(e.message, "FFmpeg trim failed for clip 1: bad input");
            assert_eq!(remove, vec!["/w/clip_0.mp4", "/w/clip_1.mp4"]);
            assert_eq!(remove_dir, Some("/w".to_string()));
        }
        other => panic!("expected the end, got {:?}", other),
    }
}

#[test]
fn concat_failure_keeps_the_intermediates() {
    let clips = vec![clip("/a", 0, 1000), clip("/b", 0, 1000)];
    let mut run = export_video(job(clips), "/w".to_string()).unwrap();
    run.on_engine_exit(true, String::new());
    run.on_engine_exit(true, String::new());
    run.on_manifest_written(true, String::new());
    run.on_engine_exit(false, "mismatch".to_string());
    match run.action() {
        ExportAction::Finish { result, remove, remove_dir } => {
            let e = result.unwrap_err();
            assert_eq!(e.kind, ErrorKind::ConcatFailed);
            assert_eq!(e.message, "FFmpeg concat failed: mismatch");
            assert!(remove.is_empty());
            assert!(remove_dir.is_none());
        }
        other => panic!("expected the end, got {:?}", other),
    }
}

#[test]
fn manifest_write_failure_cleans_up() {
    let clips = vec![clip("/a", 0, 1000), clip("/b", 0, 1000)];
    let mut run = export_video(job(clips), "/w".to_string()).unwrap();
    run.on_engine_exit(true, String::new());
    run.on_engine_exit(true, String::new());
    run.on_manifest_written(false, "disk full".to_string());
    match run.action() {
        ExportAction::Finish { result, remove, remove_dir } => {
            let e = result.unwrap_err();
            assert_eq!(e.kind, ErrorKind::ManifestWriteFailed);
            assert_eq!(e.message, "Failed to write concat list: disk full");
            assert_eq!(remove, vec!["/w/clip_0.mp4", "/w/clip_1.mp4", "/w/concat_list.txt"]);
            assert_eq!(remove_dir, Some("/w".to_string()));
        }
        other => panic!("expected the end, got {:?}", other),
    }
}

#[test]
fn untrimmed_single_clip_is_re_encoded_whole() {
    let whole = ClipConfig {
        source_file: "/in/a.mp4".to_string(),
        start_time: 0,
        duration: 4000,
        trim_start: 0,
        trim_end: 4000,
    };
    let run = export_video(job(vec![whole]), "/work".to_string()).unwrap();
    assert_eq!(
        engine_args(&run),
        vec![
            "-y", "-i", "/in/a.mp4", "-c:v", "libx264", "-preset", "fast", "-crf", "22", "-c:a", "aac",
            "-movflags", "+faststart", "/out/final.mp4",
        ]
    );
}

#[test]
fn untrimmed_clips_of_a_longer_job_are_still_cut() {
    let a = ClipConfig { source_file: "/a".to_string(), start_time: 0, duration: 1000, trim_start: 0, trim_end: 1000 };
    let run = export_video(job(vec![a.clone(), a]), "/w".to_string()).unwrap();
    let args = engine_args(&run);
    assert_eq!(args[1], "-ss");
    assert_eq!(args[6], "1.000");
}

#[test]
fn missing_engine_is_reported_and_cleaned_up() {
    let clips = vec![clip("/a", 0, 1000), clip("/b", 0, 1000)];
    let mut run = export_video(job(clips), "/w".to_string()).unwrap();
    run.on_engine_exit(true, String::new());
    run.on_engine_missing();
    match run.action() {
        ExportAction::Finish { result, remove, remove_dir } => {
            assert_eq!(result.unwrap_err().kind, ErrorKind::EngineMissing);
            assert_eq!(remove, vec!["/w/clip_0.mp4"]);
            assert_eq!(remove_dir, Some("/w".to_string()));
        }
        other => panic!("expected the end, got {:?}", other),
    }
}

#[test]
fn clips_that_keep_nothing_are_rejected() {
    assert!(validate_clips(&vec![clip("/a", 0, 1000)]).is_ok());
    assert!(validate_clips(&vec![]).is_ok());
    let e = validate_clips(&vec![clip("/a", 0, 1000), clip("/b", 500, 500), clip("/c", 9, 1)]).unwrap_err();
    assert_eq!(e.kind, ErrorKind::InvalidClip { index: 1 });
}
