use vstd::prelude::*;
use vstd::string::StrSliceExecFns;
use vstd::string::StringExecFns;
use crate::args::{owned, push_arg, push_str_arg, views};
use crate::errors::{ErrorKind, VideoError};
use crate::paths::{last_index_of, rfind_char};
use crate::text::{decimal, push_decimal};

verus! {

/// A place a recording can capture.
#[derive(Debug, Clone)]
pub struct ScreenSource {
    pub id: String,
    pub name: String,
    pub is_window: bool,
}

/// How to record.
#[derive(Debug, Clone)]
pub struct RecordingOptions {
    pub include_audio: bool,
    pub audio_device: Option<String>,
}

/// An active display as the platform lists it.
#[derive(Debug, Clone, Copy, PartialEq, Eq, Structural)]
pub struct DisplayInfo {
    pub id: u32,
    pub width: u32,
    pub height: u32,
}

/// The recording session: idle, or active with an output path and a start time
/// in milliseconds. The capture process itself is held by whoever runs it.
#[derive(Debug)]
pub struct RecordingState {
    pub is_recording: bool,
    pub output_path: Option<String>,
    pub start_time: Option<u64>,
}

/// Whether a session in the given state is recording.
pub open spec fn session_active(v: Option<(Seq<char>, nat)>) -> bool {
    v is Some
}

/// The state after a capture into `output` started at `now`.
pub open spec fn after_start(output: Seq<char>, now: nat) -> Option<(Seq<char>, nat)> {
    Some((output, now))
}

/// The state after a stop.
pub open spec fn after_stop(v: Option<(Seq<char>, nat)>) -> Option<(Seq<char>, nat)> {
    None
}

/// What a stop hands back: the output path of an active session, or nothing
/// (the stop fails) for an idle one.
pub open spec fn stop_output(v: Option<(Seq<char>, nat)>) -> Option<Seq<char>> {
    match v {
        Some((p, t)) => Some(p),
        None => None,
    }
}

impl RecordingState {
    pub open spec fn wf(&self) -> bool {
        &&& self.is_recording == self.output_path.is_some()
        &&& self.is_recording == self.start_time.is_some()
    }

    /// `None` while idle; the output path and start time while active.
    pub open spec fn view(&self) -> Option<(Seq<char>, nat)> {
        if self.is_recording {
            Some((self.output_path.unwrap()@, self.start_time.unwrap() as nat))
        } else {
            None
        }
    }

    /// A session that is idle.
    pub fn new() -> (r: RecordingState)
        ensures
            r.wf(),
            r@ is None,
    {
        RecordingState { is_recording: false, output_path: None, start_time: None }
    }

    /// The capture process for `output_path` was started at `now`: the session
    /// becomes active.
    pub fn mark_started(&mut self, output_path: String, now: u64)
        requires
            old(self).wf(),
            old(self)@ is None,
        ensures
            final(self).wf(),
            final(self)@ == after_start(output_path@, now as nat),
    {
        self.is_recording = true;
        self.output_path = Some(output_path);
        self.start_time = Some(now);
    }
}

/// Ends the session: fails with `NotRecording` while idle; otherwise the
/// session becomes idle and the output path is handed back, for the caller
/// to stop the capture process and then check the file.
pub fn stop_recording(state: &mut RecordingState) -> (r: Result<String, VideoError>)
    requires
        old(state).wf(),
    ensures
        final(state).wf(),
        final(state)@ == after_stop(old(state)@),
        stop_output(old(state)@) is None ==> (r matches Err(e) && e.kind == ErrorKind::NotRecording),
        stop_output(old(state)@) matches Some(p) ==> (r matches Ok(q) && q@ == p),
{
    if !state.is_recording {
        return Err(VideoError::new(ErrorKind::NotRecording, owned("No recording in progress")));
    }
    let path = match state.output_path.take() {
        Some(p) => p,
        None => String::new(),
    };
    state.is_recording = false;
    state.start_time = None;
    Ok(path)
}

/// Whether a recording is active.
pub fn is_recording(state: &RecordingState) -> (r: bool)
    requires
        state.wf(),
    ensures
        r == session_active(state@),
{
    state.is_recording
}

/// Milliseconds since the recording started, at time `now`; zero while idle.
pub fn get_recording_duration(state: &RecordingState, now: u64) -> (r: u64)
    requires
        state.wf(),
    ensures
        state@ matches Some((p, t)) ==> r == if now >= t { now - t } else { 0 },
        state@ is None ==> r == 0,
{
    match state.start_time {
        Some(t) => if now >= t { now - t } else { 0 },
        None => 0,
    }
}

/// The sources offered where the platform lists no displays of its own.
pub fn get_screen_sources() -> (r: Vec<ScreenSource>)
    ensures
        r@.len() == 1,
        r@[0].id@ == "screen_0"@,
        r@[0].name@ == "Primary Display"@,
        !r@[0].is_window,
{
    let mut v: Vec<ScreenSource> = Vec::new();
    v.push(ScreenSource { id: owned("screen_0"), name: owned("Primary Display"), is_window: false });
    v
}

/// The name of the display at position `index` (from zero) of size `w` x `h`.
pub open spec fn display_name(index: nat, w: nat, h: nat) -> Seq<char> {
    "Display "@ + decimal(index + 1) + " ("@ + decimal(w) + "x"@ + decimal(h) + ")"@
}

pub open spec fn display_id(id: nat) -> Seq<char> {
    "display_"@ + decimal(id)
}

/// The sources for the active displays, in the order listed.
pub fn display_sources(displays: &Vec<DisplayInfo>) -> (r: Vec<ScreenSource>)
    ensures
        r@.len() == displays@.len(),
        forall|i: int| 0 <= i < r@.len() ==> {
            &&& (#[trigger] r@[i]).id@ == display_id(displays@[i].id as nat)
            &&& r@[i].name@ == display_name(i as nat, displays@[i].width as nat, displays@[i].height as nat)
            &&& !r@[i].is_window
        },
{
    let mut v: Vec<ScreenSource> = Vec::new();
    let mut i: usize = 0;
    while i < displays.len()
        invariant
            i <= displays@.len(),
            v@.len() == i,
            forall|j: int| 0 <= j < i ==> {
                &&& (#[trigger] v@[j]).id@ == display_id(displays@[j].id as nat)
                &&& v@[j].name@ == display_name(j as nat, displays@[j].width as nat, displays@[j].height as nat)
                &&& !v@[j].is_window
            },
        decreases displays@.len() - i,
    {
        let d = displays[i];
        let mut id = owned("display_");
        push_decimal(&mut id, d.id as u64);
        let mut name = owned("Display ");
        push_decimal(&mut name, i as u64 + 1);
        name.append(" (");
        push_decimal(&mut name, d.width as u64);
        name.append("x");
        push_decimal(&mut name, d.height as u64);
        name.append(")");
        v.push(ScreenSource { id, name, is_window: false });
        i = i + 1;
    }
    v
}

/// The capture input for `source_id`: the part after its last underscore (the
/// display number), with the default audio device appended when audio is on.
pub open spec fn capture_device(source_id: Seq<char>, include_audio: bool) -> Seq<char> {
    let display = match last_index_of(source_id, '_') {
        Some(k) => source_id.skip(k as int + 1),
        None => source_id,
    };
    if include_audio { display + ":0"@ } else { display }
}

/// The engine arguments that capture `device` into `output` at 30 frames per
/// second, with audio encoding when audio is on.
pub open spec fn capture_args(device: Seq<char>, include_audio: bool, output: Seq<char>) -> Seq<Seq<char>> {
    seq![
        "-f"@, "avfoundation"@, "-capture_cursor"@, "1"@, "-capture_mouse_clicks"@, "1"@,
        "-r"@, "30"@, "-i"@, device, "-c:v"@, "libx264"@, "-preset"@, "ultrafast"@,
        "-crf"@, "23"@, "-pix_fmt"@, "yuv420p"@,
    ] + (if include_audio { seq!["-c:a"@, "aac"@, "-b:a"@, "128k"@] } else { Seq::empty() })
      + seq![output]
}

} // verus!

verus! {

/// The capture input for `source_id`.
pub fn capture_input(source_id: &str, include_audio: bool) -> (r: String)
    ensures
        r@ == capture_device(source_id@, include_audio),
{
    let n = source_id.unicode_len();
    let mut s = match rfind_char(source_id, '_') {
        Some(k) => owned(source_id.substring_char(k + 1, n)),
        None => owned(source_id),
    };
    proof {
        if let Some(k) = last_index_of(source_id@, '_') {
            assert(source_id@.subrange(k as int + 1, n as int) =~= source_id@.skip(k as int + 1));
        }
    }
    if include_audio {
        s.append(":0");
    }
    s
}

/// The arguments that capture `source_id` into `output_path`.
pub fn capture_command(source_id: &str, include_audio: bool, output_path: &str) -> (r: Vec<String>)
    ensures
        views(r@) == capture_args(capture_device(source_id@, include_audio), include_audio, output_path@),
{
    let mut v: Vec<String> = Vec::new();
    push_str_arg(&mut v, "-f");
    push_str_arg(&mut v, "avfoundation");
    push_str_arg(&mut v, "-capture_cursor");
    push_str_arg(&mut v, "1");
    push_str_arg(&mut v, "-capture_mouse_clicks");
    push_str_arg(&mut v, "1");
    push_str_arg(&mut v, "-r");
    push_str_arg(&mut v, "30");
    push_str_arg(&mut v, "-i");
    push_arg(&mut v, capture_input(source_id, include_audio));
    push_str_arg(&mut v, "-c:v");
    push_str_arg(&mut v, "libx264");
    push_str_arg(&mut v, "-preset");
    push_str_arg(&mut v, "ultrafast");
    push_str_arg(&mut v, "-crf");
    push_str_arg(&mut v, "23");
    push_str_arg(&mut v, "-pix_fmt");
    push_str_arg(&mut v, "yuv420p");
    if include_audio {
        push_str_arg(&mut v, "-c:a");
        push_str_arg(&mut v, "aac");
        push_str_arg(&mut v, "-b:a");
        push_str_arg(&mut v, "128k");
    }
    push_str_arg(&mut v, output_path);
    assert(views(v@) =~= capture_args(capture_device(source_id@, include_audio), include_audio, output_path@));
    v
}

/// Decides whether a recording of `source_id` into `output_path` may start, and
/// with which capture arguments. `supported` is whether the platform can
/// capture at all. The session is not changed: the caller spawns the capture
/// process and then calls `mark_started`, under the same lock; while a
/// recording is active nothing is handed out to spawn.
pub fn start_screen_recording(
    state: &RecordingState,
    source_id: &str,
    options: &RecordingOptions,
    output_path: &str,
    supported: bool,
) -> (r: Result<Vec<String>, VideoError>)
    requires
        state.wf(),
    ensures
        !supported ==> (r matches Err(e) && e.kind == ErrorKind::UnsupportedPlatform),
        supported && session_active(state@) ==> (r matches Err(e) && e.kind == ErrorKind::AlreadyRecording),
        supported && !session_active(state@) ==> (r matches Ok(args) && views(args@)
            == capture_args(capture_device(source_id@, options.include_audio), options.include_audio, output_path@)),
{
    if !supported {
        return Err(VideoError::new(
            ErrorKind::UnsupportedPlatform,
            owned("Screen recording not supported on this platform"),
        ));
    }
    if state.is_recording {
        return Err(VideoError::new(ErrorKind::AlreadyRecording, owned("Recording already in progress")));
    }
    Ok(capture_command(source_id, options.include_audio, output_path))
}

/// The capture process could not be started; `reason` says why.
pub fn spawn_failure(reason: &str) -> (r: VideoError)
    ensures
        r.kind == ErrorKind::SpawnFailed,
        r.message@ == "Failed to start FFmpeg: "@ + reason@,
{
    let mut msg = owned("Failed to start FFmpeg: ");
    msg.append(reason);
    VideoError::new(ErrorKind::SpawnFailed, msg)
}

/// Judges a stopped recording once its process is gone: `exists` is whether the
/// output file is there.
pub fn recording_saved(output_path: String, exists: bool) -> (r: Result<String, VideoError>)
    ensures
        exists ==> (r matches Ok(p) && p@ == output_path@),
        !exists ==> (r matches Err(e) && e.kind == ErrorKind::OutputMissing
            && e.message@ == "Recording file was not created: "@ + output_path@),
{
    if exists {
        Ok(output_path)
    } else {
        let mut msg = owned("Recording file was not created: ");
        msg.append(output_path.as_str());
        Err(VideoError::new(ErrorKind::OutputMissing, msg))
    }
}

/// A full cycle: an idle session is not recording and cannot be stopped; once
/// a capture has started it is recording, and a stop hands back the capture's
/// output and leaves it idle, so a second stop fails.
pub proof fn lemma_record_cycle(output: Seq<char>, now: nat)
    ensures
        !session_active(None),
        stop_output(None) is None,
        session_active(after_start(output, now)),
        stop_output(after_start(output, now)) == Some(output),
        !session_active(after_stop(after_start(output, now))),
        stop_output(after_stop(after_start(output, now))) is None,
{
}

} // verus!
