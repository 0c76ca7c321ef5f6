use vstd::prelude::*;
use vstd::string::StringExecFns;
use crate::args::{owned, push_str_arg, views};
use crate::errors::{ErrorKind, VideoError};
use crate::paths::{convert_args, convert_command, is_incompatible, needs_normalizing, normalized_file, normalized_path};
use crate::numbers::{duration_ms_of, frame_rate_of, parse_duration_ms, parse_frame_rate, FrameRate};

verus! {

/// The fields a probe's JSON reports for the first video stream: width,
/// height, codec name, frame-rate text, and the container's duration text.
/// `None` where the text is no JSON document or lists no stream.
pub uninterp spec fn probe_fields_of(
    json: Seq<char>,
) -> Option<(Option<u64>, Option<u64>, Option<Seq<char>>, Option<Seq<char>>, Option<Seq<char>>)>;

/// The fields of a probe's JSON output, each absent where the JSON lacks it or
/// holds another type there.
pub struct ProbeFields {
    pub width: Option<u64>,
    pub height: Option<u64>,
    pub codec: Option<String>,
    pub rate: Option<String>,
    pub duration: Option<String>,
}

impl ProbeFields {
    pub open spec fn view(&self) -> (Option<u64>, Option<u64>, Option<Seq<char>>, Option<Seq<char>>, Option<Seq<char>>) {
        (self.width, self.height, opt_view(self.codec), opt_view(self.rate), opt_view(self.duration))
    }
}

pub open spec fn fields_view(f: Option<ProbeFields>) -> Option<(Option<u64>, Option<u64>, Option<Seq<char>>, Option<Seq<char>>, Option<Seq<char>>)> {
    match f {
        Some(f) => Some(f.view()),
        None => None,
    }
}

/// Relies on serde_json::from_str to read the document, and on Value::get,
/// Value::as_array, Value::as_u64 and Value::as_str to pick `streams[0]`'s
/// width, height, codec_name and r_frame_rate and `format.duration`.
#[verifier::external_body]
fn probe_fields(json: &str) -> (r: Option<ProbeFields>)
    ensures
        fields_view(r) == probe_fields_of(json@),
{
    let v: serde_json::Value = serde_json::from_str(json).ok()?;
    let s = v.get("streams")?.as_array()?.first()?;
    let text = |o: Option<&serde_json::Value>| o.and_then(serde_json::Value::as_str).map(String::from);
    Some(ProbeFields {
        width: s.get("width").and_then(serde_json::Value::as_u64),
        height: s.get("height").and_then(serde_json::Value::as_u64),
        codec: text(s.get("codec_name")),
        rate: text(s.get("r_frame_rate")),
        duration: text(v.get("format").and_then(|f| f.get("duration"))),
    })
}

/// What a probe learned of a media file. The duration is in milliseconds; the
/// frame rate is a fraction.
#[derive(Debug, Clone)]
pub struct VideoMetadata {
    pub path: String,
    pub duration: i64,
    pub width: u32,
    pub height: u32,
    pub fps: FrameRate,
    pub codec: String,
    pub size: u64,
}

/// A `VideoMetadata` as plain values.
pub struct MetadataView {
    pub path: Seq<char>,
    pub duration: int,
    pub width: nat,
    pub height: nat,
    pub fps: (int, nat),
    pub codec: Seq<char>,
    pub size: nat,
}

impl VideoMetadata {
    pub open spec fn view(&self) -> MetadataView {
        MetadataView {
            path: self.path@,
            duration: self.duration as int,
            width: self.width as nat,
            height: self.height as nat,
            fps: (self.fps.num as int, self.fps.den as nat),
            codec: self.codec@,
            size: self.size as nat,
        }
    }
}

pub open spec fn opt_view(o: Option<String>) -> Option<Seq<char>> {
    match o {
        Some(s) => Some(s@),
        None => None,
    }
}

/// A dimension as reported, or `default` where it is missing or past `u32`.
pub open spec fn dimension_or(v: Option<u64>, default: nat) -> nat {
    match v {
        Some(x) => if x <= u32::MAX { x as nat } else { default },
        None => default,
    }
}

/// The metadata of `path` from the fields a probe reported, each missing or
/// unreadable one replaced by its default: 1920x1080, "h264", 30/1, 60 s.
pub open spec fn metadata_of(
    path: Seq<char>,
    size: nat,
    width: Option<u64>,
    height: Option<u64>,
    codec: Option<Seq<char>>,
    rate: Option<Seq<char>>,
    duration: Option<Seq<char>>,
) -> MetadataView {
    MetadataView {
        path,
        duration: match duration { Some(d) => duration_ms_of(d), None => 60000 },
        width: dimension_or(width, 1920),
        height: dimension_or(height, 1080),
        fps: match rate { Some(r) => frame_rate_of(r), None => (30, 1) },
        codec: match codec { Some(c) => c, None => "h264"@ },
        size,
    }
}

/// The engine arguments that query the first video stream of `path` as JSON.
pub open spec fn probe_args(path: Seq<char>) -> Seq<Seq<char>> {
    seq![
        "-v"@, "error"@, "-select_streams"@, "v:0"@, "-show_entries"@,
        "stream=width,height,r_frame_rate,codec_name:format=duration"@, "-of"@, "json"@, path,
    ]
}

fn dimension(v: Option<u64>, default: u32) -> (r: u32)
    ensures
        r as nat == dimension_or(v, default as nat),
{
    match v {
        Some(x) => if x <= 0xffff_ffff { x as u32 } else { default },
        None => default,
    }
}

/// Metadata from the fields a probe reported; missing ones take their defaults.
pub fn metadata_from_fields(
    path: String,
    size: u64,
    width: Option<u64>,
    height: Option<u64>,
    codec: Option<String>,
    rate: Option<String>,
    duration: Option<String>,
) -> (r: VideoMetadata)
    ensures
        r.view() == metadata_of(path@, size as nat, width, height, opt_view(codec), opt_view(rate), opt_view(duration)),
{
    let fps = match &rate {
        Some(s) => parse_frame_rate(s.as_str()),
        None => FrameRate { num: 30, den: 1 },
    };
    let duration = match &duration {
        Some(s) => parse_duration_ms(s.as_str()),
        None => 60000,
    };
    let codec = match codec {
        Some(c) => c,
        None => owned("h264"),
    };
    VideoMetadata {
        path,
        duration,
        width: dimension(width, 1920),
        height: dimension(height, 1080),
        fps,
        codec,
        size,
    }
}

/// The metadata reported when no engine is available to probe `path`.
pub fn fallback_metadata(path: String) -> (r: VideoMetadata)
    ensures
        r.view() == metadata_of(path@, 0, None, None, None, None, None),
{
    metadata_from_fields(path, 0, None, None, None, None, None)
}

/// The arguments that probe `path`.
pub fn probe_command(path: &str) -> (r: Vec<String>)
    ensures
        views(r@) == probe_args(path@),
{
    let mut v: Vec<String> = Vec::new();
    push_str_arg(&mut v, "-v");
    push_str_arg(&mut v, "error");
    push_str_arg(&mut v, "-select_streams");
    push_str_arg(&mut v, "v:0");
    push_str_arg(&mut v, "-show_entries");
    push_str_arg(&mut v, "stream=width,height,r_frame_rate,codec_name:format=duration");
    push_str_arg(&mut v, "-of");
    push_str_arg(&mut v, "json");
    push_str_arg(&mut v, path);
    assert(views(v@) =~= probe_args(path@));
    v
}

/// Reads the JSON that a probe of `path` printed. Fails with `ProbeParseError`
/// where it is no JSON or lists no video stream; otherwise the metadata holds
/// the fields it reported, with defaults for the rest.
pub fn interpret_probe(path: String, size: u64, json: &str) -> (r: Result<VideoMetadata, VideoError>)
    ensures
        probe_fields_of(json@) is None ==> (r matches Err(e) && e.kind == ErrorKind::ProbeParseError),
        probe_fields_of(json@) matches Some((w, h, c, fr, d)) ==> (r matches Ok(m)
            && m.view() == metadata_of(path@, size as nat, w, h, c, fr, d)),
{
    match probe_fields(json) {
        None => Err(VideoError::new(ErrorKind::ProbeParseError, owned("No video stream found in the probe output"))),
        Some(f) => Ok(metadata_from_fields(path, size, f.width, f.height, f.codec, f.rate, f.duration)),
    }
}

/// Judges a probe run of `path`: `spawned` is whether the engine could be
/// started, `success` whether it exited with status zero.
pub fn probe_result(path: String, size: u64, spawned: bool, success: bool, stdout: &str, stderr: &str) -> (r: Result<VideoMetadata, VideoError>)
    ensures
        !spawned ==> (r matches Err(e) && e.kind == ErrorKind::ProbeExecutionError),
        spawned && !success ==> (r matches Err(e) && e.kind == ErrorKind::ProbeExecutionError
            && e.message@ == "FFprobe failed: "@ + stderr@),
        spawned && success && probe_fields_of(stdout@) is None
            ==> (r matches Err(e) && e.kind == ErrorKind::ProbeParseError),
        spawned && success ==> (probe_fields_of(stdout@) matches Some((w, h, c, fr, d)) ==> (r matches Ok(m)
            && m.view() == metadata_of(path@, size as nat, w, h, c, fr, d))),
{
    if !spawned {
        return Err(VideoError::new(ErrorKind::ProbeExecutionError, owned("FFprobe execution error")));
    }
    if !success {
        let mut msg = owned("FFprobe failed: ");
        msg.append(stderr);
        return Err(VideoError::new(ErrorKind::ProbeExecutionError, msg));
    }
    interpret_probe(path, size, stdout)
}

} // verus!

verus! {

/// The first thing to do to import a file.
#[derive(Debug)]
pub enum ImportStep {
    /// The import fails at once.
    Fail(VideoError),
    /// No engine is available: use this synthetic metadata.
    Fallback(VideoMetadata),
    /// Normalize the file first (see `convert_mov_to_mp4`), then probe the copy.
    Normalize,
    /// Probe the file as it is (see `probe_command`).
    Probe,
}

/// Decides how to import `path`: `exists` is whether the file exists,
/// `engine_available` whether the encoding engine can be run. Existence is
/// checked before anything else.
pub fn import_video(path: String, exists: bool, engine_available: bool) -> (r: ImportStep)
    ensures
        !exists ==> (r matches ImportStep::Fail(e) && e.kind == ErrorKind::FileNotFound),
        exists && !engine_available ==> (r matches ImportStep::Fallback(m)
            && m.view() == metadata_of(path@, 0, None, None, None, None, None)),
        exists && engine_available && is_incompatible(path@) ==> r is Normalize,
        exists && engine_available && !is_incompatible(path@) ==> r is Probe,
{
    if !exists {
        return ImportStep::Fail(VideoError::new(ErrorKind::FileNotFound, owned("Video file not found")));
    }
    if !engine_available {
        return ImportStep::Fallback(fallback_metadata(path));
    }
    if needs_normalizing(path.as_str()) {
        ImportStep::Normalize
    } else {
        ImportStep::Probe
    }
}

/// How to obtain the normalized copy of a file.
#[derive(Debug)]
pub enum ConvertStep {
    /// The copy is already there.
    Ready(String),
    /// Run the engine with `args` to write the copy to `output`, then pass the
    /// outcome to `conversion_result`.
    Run { output: String, args: Vec<String> },
}

/// Decides how to normalize `input_path` into `dir`; `cached` is whether a file
/// already stands at the copy's path, in which case the engine is not run again.
pub fn convert_mov_to_mp4(input_path: &str, dir: &str, cached: bool) -> (r: ConvertStep)
    ensures
        cached ==> (r matches ConvertStep::Ready(p) && p@ == normalized_path(dir@, input_path@)),
        !cached ==> (r matches ConvertStep::Run { output, args }
            && output@ == normalized_path(dir@, input_path@)
            && views(args@) == convert_args(input_path@, output@)),
{
    let output = normalized_file(dir, input_path);
    if cached {
        ConvertStep::Ready(output)
    } else {
        let args = convert_command(input_path, output.as_str());
        ConvertStep::Run { output, args }
    }
}

/// Judges a conversion run: the copy on success, else `ConversionError` with
/// the engine's error stream.
pub fn conversion_result(output: String, success: bool, stderr: &str) -> (r: Result<String, VideoError>)
    ensures
        success ==> (r matches Ok(p) && p@ == output@),
        !success ==> (r matches Err(e) && e.kind == ErrorKind::ConversionError
            && e.message@ == "FFmpeg conversion failed: "@ + stderr@),
{
    if success {
        Ok(output)
    } else {
        let mut msg = owned("FFmpeg conversion failed: ");
        msg.append(stderr);
        Err(VideoError::new(ErrorKind::ConversionError, msg))
    }
}

} // verus!
