use vstd::prelude::*;
use vstd::string::StringExecFns;
use crate::args::{owned, push_arg, push_str_arg, views};
use crate::errors::{result_view, ErrorKind, VideoError};
use crate::text::{decimal, lemma_decimal_injective, push_decimal, seconds_string, seconds_text};

verus! {

/// One clip of an export: a source file and the range kept of it.
/// Times are in milliseconds.
#[derive(Debug, Clone)]
pub struct ClipConfig {
    pub source_file: String,
    pub start_time: u64,
    pub duration: u64,
    pub trim_start: u64,
    pub trim_end: u64,
}

/// An export job: the clips in order and the destination file.
#[derive(Debug, Clone)]
pub struct ExportConfig {
    pub clips: Vec<ClipConfig>,
    pub output_path: String,
}

impl ClipConfig {
    /// The kept range is non-empty.
    pub open spec fn well_formed(&self) -> bool {
        self.trim_start < self.trim_end
    }

    pub open spec fn span(&self) -> nat {
        (self.trim_end - self.trim_start) as nat
    }
}

/// The encoding settings every trim and the concatenation share, then the output.
pub open spec fn encode_tail(out: Seq<char>) -> Seq<Seq<char>> {
    seq![
        "-c:v"@, "libx264"@, "-preset"@, "fast"@, "-crf"@, "22"@,
        "-c:a"@, "aac"@, "-movflags"@, "+faststart"@, out,
    ]
}

/// The engine arguments that cut `clip` to `out`: seek to the trim start,
/// keep the clip's span, re-encode.
pub open spec fn trim_args(clip: ClipConfig, out: Seq<char>) -> Seq<Seq<char>> {
    seq![
        "-y"@, "-ss"@, seconds_text(clip.trim_start as nat), "-i"@, clip.source_file@,
        "-t"@, seconds_text(clip.span()),
    ] + encode_tail(out)
}

/// A clip that keeps its whole source: it starts at zero and ends at or past
/// the source's duration.
pub open spec fn is_untrimmed(clip: ClipConfig) -> bool {
    clip.trim_start == 0 && clip.trim_end >= clip.duration
}

/// The engine arguments that re-encode the whole of `source` into `out`.
pub open spec fn whole_args(source: Seq<char>, out: Seq<char>) -> Seq<Seq<char>> {
    seq!["-y"@, "-i"@, source] + encode_tail(out)
}

/// The engine arguments that join the files listed in `manifest` into `out`.
pub open spec fn concat_args(manifest: Seq<char>, out: Seq<char>) -> Seq<Seq<char>> {
    seq!["-y"@, "-f"@, "concat"@, "-safe"@, "0"@, "-i"@, manifest] + encode_tail(out)
}

/// The intermediate file of the clip at `index`, inside the working directory.
pub open spec fn intermediate_path(work_dir: Seq<char>, index: nat) -> Seq<char> {
    work_dir + "/clip_"@ + decimal(index) + ".mp4"@
}

/// The intermediates of the first `n` clips, in clip order.
pub open spec fn intermediates(work_dir: Seq<char>, n: nat) -> Seq<Seq<char>> {
    Seq::new(n, |i: int| intermediate_path(work_dir, i as nat))
}

/// The concatenation manifest, inside the working directory.
pub open spec fn manifest_path(work_dir: Seq<char>) -> Seq<char> {
    work_dir + "/concat_list.txt"@
}

pub open spec fn manifest_line(path: Seq<char>) -> Seq<char> {
    "file '"@ + path + "'"@
}

/// The manifest text: one quoted path per line, in order.
pub open spec fn manifest_text(paths: Seq<Seq<char>>) -> Seq<char>
    decreases paths.len(),
{
    if paths.len() == 0 {
        Seq::<char>::empty()
    } else if paths.len() == 1 {
        manifest_line(paths[0])
    } else {
        manifest_text(paths.drop_last()) + "\n"@ + manifest_line(paths.last())
    }
}

pub open spec fn trim_failed_text(index: nat, stderr: Seq<char>) -> Seq<char> {
    "FFmpeg trim failed for clip "@ + decimal(index) + ": "@ + stderr
}

pub open spec fn concat_failed_text(stderr: Seq<char>) -> Seq<char> {
    "FFmpeg concat failed: "@ + stderr
}

/// The arguments that cut `clip` to `out`.
pub fn trim_command(clip: &ClipConfig, out: &str) -> (r: Vec<String>)
    requires
        clip.well_formed(),
    ensures
        views(r@) == trim_args(*clip, out@),
{
    let mut v: Vec<String> = Vec::new();
    push_str_arg(&mut v, "-y");
    push_str_arg(&mut v, "-ss");
    push_arg(&mut v, seconds_string(clip.trim_start));
    push_str_arg(&mut v, "-i");
    push_arg(&mut v, clip.source_file.clone());
    push_str_arg(&mut v, "-t");
    push_arg(&mut v, seconds_string(clip.trim_end - clip.trim_start));
    push_encode_tail(&mut v, out);
    assert(views(v@) =~= trim_args(*clip, out@));
    v
}

fn push_encode_tail(v: &mut Vec<String>, out: &str)
    ensures
        views(final(v)@) == views(old(v)@) + encode_tail(out@),
{
    push_str_arg(v, "-c:v");
    push_str_arg(v, "libx264");
    push_str_arg(v, "-preset");
    push_str_arg(v, "fast");
    push_str_arg(v, "-crf");
    push_str_arg(v, "22");
    push_str_arg(v, "-c:a");
    push_str_arg(v, "aac");
    push_str_arg(v, "-movflags");
    push_str_arg(v, "+faststart");
    push_str_arg(v, out);
    assert(views(final(v)@) =~= views(old(v)@) + encode_tail(out@));
}

/// The arguments that re-encode the whole of `source` into `out`.
pub fn whole_command(source: &str, out: &str) -> (r: Vec<String>)
    ensures
        views(r@) == whole_args(source@, out@),
{
    let mut v: Vec<String> = Vec::new();
    push_str_arg(&mut v, "-y");
    push_str_arg(&mut v, "-i");
    push_str_arg(&mut v, source);
    push_encode_tail(&mut v, out);
    assert(views(v@) =~= whole_args(source@, out@));
    v
}

/// The arguments that join the files listed in `manifest` into `out`.
pub fn concat_command(manifest: &str, out: &str) -> (r: Vec<String>)
    ensures
        views(r@) == concat_args(manifest@, out@),
{
    let mut v: Vec<String> = Vec::new();
    push_str_arg(&mut v, "-y");
    push_str_arg(&mut v, "-f");
    push_str_arg(&mut v, "concat");
    push_str_arg(&mut v, "-safe");
    push_str_arg(&mut v, "0");
    push_str_arg(&mut v, "-i");
    push_str_arg(&mut v, manifest);
    push_encode_tail(&mut v, out);
    assert(views(v@) =~= concat_args(manifest@, out@));
    v
}

/// The path of the intermediate file of the clip at `index`.
pub fn intermediate_file(work_dir: &str, index: usize) -> (r: String)
    ensures
        r@ == intermediate_path(work_dir@, index as nat),
{
    let mut s = owned(work_dir);
    s.append("/clip_");
    push_decimal(&mut s, index as u64);
    s.append(".mp4");
    assert(s@ =~= intermediate_path(work_dir@, index as nat));
    s
}

/// The path of the concatenation manifest.
pub fn manifest_file(work_dir: &str) -> (r: String)
    ensures
        r@ == manifest_path(work_dir@),
{
    let mut s = owned(work_dir);
    s.append("/concat_list.txt");
    s
}

/// The paths of the intermediates of the first `n` clips.
pub fn intermediate_files(work_dir: &str, n: usize) -> (r: Vec<String>)
    ensures
        views(r@) == intermediates(work_dir@, n as nat),
        r@.len() == n,
{
    let mut v: Vec<String> = Vec::new();
    let mut i: usize = 0;
    while i < n
        invariant
            i <= n,
            views(v@) == intermediates(work_dir@, i as nat),
            v@.len() == i,
        decreases n - i,
    {
        push_arg(&mut v, intermediate_file(work_dir, i));
        i = i + 1;
        assert(views(v@) =~= intermediates(work_dir@, i as nat));
    }
    v
}

/// The manifest text that lists `paths` in order.
pub fn manifest_contents(paths: &Vec<String>) -> (r: String)
    ensures
        r@ == manifest_text(views(paths@)),
{
    let mut s = String::new();
    let mut i: usize = 0;
    while i < paths.len()
        invariant
            i <= paths@.len(),
            s@ == manifest_text(views(paths@).take(i as int)),
        decreases paths@.len() - i,
    {
        let ghost before = s@;
        if i > 0 {
            s.append("\n");
        }
        s.append("file '");
        s.append(paths[i].as_str());
        s.append("'");
        proof {
            let t = views(paths@).take(i + 1);
            assert(t.drop_last() =~= views(paths@).take(i as int));
            assert(t.last() == paths@[i as int]@);
            if i == 0 {
                assert(views(paths@).take(0) =~= Seq::<Seq<char>>::empty());
                assert(s@ =~= manifest_line(t.last()));
            } else {
                assert(s@ =~= before + "\n"@ + manifest_line(t.last()));
            }
        }
        i = i + 1;
    }
    assert(views(paths@).take(paths@.len() as int) =~= views(paths@));
    s
}

} // verus!

verus! {

/// Where an export run stands.
#[derive(Debug, Clone, Copy, PartialEq, Eq, Structural)]
pub enum ExportPhase {
    /// Cutting the clip at `index`.
    Trimming { index: usize },
    WritingManifest,
    Concatenating,
    Finished,
}

/// What the caller must do next for an export run.
#[derive(Debug)]
pub enum ExportAction {
    /// Run the encoding engine with these arguments, then report how it exited.
    RunEngine { args: Vec<String> },
    /// Write `contents` to `path`, then report whether that worked.
    WriteManifest { path: String, contents: String },
    /// Delete `remove` (and then `remove_dir` if it is empty), ignoring failures,
    /// and hand `result` to the caller. The run is over.
    Finish { result: Result<String, VideoError>, remove: Vec<String>, remove_dir: Option<String> },
}

/// The kind of error a finished run ended with, if it failed.
pub open spec fn failed_with(outcome: Option<Result<String, VideoError>>) -> Option<ErrorKind> {
    match outcome {
        Some(Err(e)) => Some(e.kind),
        _ => None,
    }
}

/// The clip whose trim failed, where a finished run ended that way.
pub open spec fn trim_failed_at(outcome: Option<Result<String, VideoError>>) -> Option<nat> {
    match failed_with(outcome) {
        Some(ErrorKind::TrimFailed { index }) => Some(index as nat),
        _ => None,
    }
}

/// One export run: the job, its working directory and how far it has come.
/// It holds no state beyond the job: each run is created afresh.
pub struct ExportRun {
    pub clips: Vec<ClipConfig>,
    pub output_path: String,
    pub work_dir: String,
    pub phase: ExportPhase,
    pub outcome: Option<Result<String, VideoError>>,
    pub remove: Vec<String>,
    pub remove_dir: bool,
}

impl ExportRun {
    pub open spec fn n(&self) -> nat {
        self.clips@.len()
    }

    /// The file the clip at `i` is cut to: the destination itself when the job
    /// has one clip, else its intermediate.
    pub open spec fn trim_target(&self, i: nat) -> Seq<char> {
        if self.n() == 1 { self.output_path@ } else { intermediate_path(self.work_dir@, i) }
    }

    /// The engine arguments for the clip at `i`: a job of one untrimmed clip
    /// re-encodes it whole to the destination, every other clip is cut.
    pub open spec fn clip_args(&self, i: nat) -> Seq<Seq<char>> {
        if self.n() == 1 && is_untrimmed(self.clips@[i as int]) {
            whole_args(self.clips@[i as int].source_file@, self.output_path@)
        } else {
            trim_args(self.clips@[i as int], self.trim_target(i))
        }
    }

    pub open spec fn wf(&self) -> bool {
        &&& self.n() >= 1
        &&& forall|i: int| 0 <= i < self.n() ==> (#[trigger] self.clips@[i]).well_formed()
        &&& self.outcome.is_none() ==> self.remove@.len() == 0 && !self.remove_dir
        &&& self.n() == 1 ==> self.remove@.len() == 0 && !self.remove_dir
        &&& ((self.outcome matches Some(Ok(_)) && self.n() >= 2)
            || failed_with(self.outcome) == Some(ErrorKind::ManifestWriteFailed)) ==> {
            &&& views(self.remove@) == intermediates(self.work_dir@, self.n()).push(manifest_path(self.work_dir@))
            &&& self.remove_dir
        }
        &&& failed_with(self.outcome) == Some(ErrorKind::ConcatFailed) ==> self.remove@.len() == 0
        &&& (trim_failed_at(self.outcome) is Some && self.n() >= 2) ==> {
            &&& trim_failed_at(self.outcome).unwrap() < self.n()
            &&& views(self.remove@) == intermediates(self.work_dir@, trim_failed_at(self.outcome).unwrap() + 1)
        }
        &&& match self.phase {
            ExportPhase::Trimming { index } => index < self.n() && self.outcome.is_none(),
            ExportPhase::WritingManifest => self.n() >= 2 && self.outcome.is_none(),
            ExportPhase::Concatenating => self.n() >= 2 && self.outcome.is_none(),
            ExportPhase::Finished => self.outcome.is_some(),
        }
    }

    /// What the caller must do now.
    pub fn action(&self) -> (r: ExportAction)
        requires
            self.wf(),
        ensures
            match self.phase {
                ExportPhase::Trimming { index } => r matches ExportAction::RunEngine { args }
                    && views(args@) == self.clip_args(index as nat),
                ExportPhase::WritingManifest => r matches ExportAction::WriteManifest { path, contents }
                    && path@ == manifest_path(self.work_dir@)
                    && contents@ == manifest_text(intermediates(self.work_dir@, self.n())),
                ExportPhase::Concatenating => r matches ExportAction::RunEngine { args }
                    && views(args@) == concat_args(manifest_path(self.work_dir@), self.output_path@),
                ExportPhase::Finished => r matches ExportAction::Finish { result, remove, remove_dir }
                    && self.outcome matches Some(o) && result_view(result) == result_view(o)
                    && remove@ == self.remove@
                    && (remove_dir is Some <==> self.remove_dir)
                    && (remove_dir matches Some(d) ==> d@ == self.work_dir@),
            },
    {
        match self.phase {
            ExportPhase::Trimming { index } => {
                let args = if self.clips.len() == 1 {
                    let clip = &self.clips[index];
                    if clip.trim_start == 0 && clip.trim_end >= clip.duration {
                        whole_command(clip.source_file.as_str(), self.output_path.as_str())
                    } else {
                        trim_command(clip, self.output_path.as_str())
                    }
                } else {
                    let out = intermediate_file(self.work_dir.as_str(), index);
                    trim_command(&self.clips[index], out.as_str())
                };
                ExportAction::RunEngine { args }
            },
            ExportPhase::WritingManifest => {
                let files = intermediate_files(self.work_dir.as_str(), self.clips.len());
                let contents = manifest_contents(&files);
                ExportAction::WriteManifest { path: manifest_file(self.work_dir.as_str()), contents }
            },
            ExportPhase::Concatenating => {
                let manifest = manifest_file(self.work_dir.as_str());
                ExportAction::RunEngine {
                    args: concat_command(manifest.as_str(), self.output_path.as_str()),
                }
            },
            ExportPhase::Finished => {
                let result = match &self.outcome {
                    Some(Ok(p)) => Ok(p.clone()),
                    Some(Err(e)) => Err(e.duplicate()),
                    None => Err(VideoError::new(ErrorKind::EmptyJob, String::new())),
                };
                let remove_dir = if self.remove_dir { Some(self.work_dir.clone()) } else { None };
                ExportAction::Finish { result, remove: self.remove.clone(), remove_dir }
            },
        }
    }
}

} // verus!

verus! {

/// Checks that every clip keeps a non-empty range; the first one that does not
/// is reported as `InvalidClip`.
pub fn validate_clips(clips: &Vec<ClipConfig>) -> (r: Result<(), VideoError>)
    ensures
        r is Ok <==> forall|i: int| 0 <= i < clips@.len() ==> (#[trigger] clips@[i]).well_formed(),
        r matches Err(e) ==> e.kind matches ErrorKind::InvalidClip { index } && index < clips@.len()
            && !clips@[index as int].well_formed()
            && forall|i: int| 0 <= i < index ==> (#[trigger] clips@[i]).well_formed(),
{
    let mut i: usize = 0;
    while i < clips.len()
        invariant
            i <= clips@.len(),
            forall|j: int| 0 <= j < i ==> (#[trigger] clips@[j]).well_formed(),
        decreases clips@.len() - i,
    {
        if clips[i].trim_start >= clips[i].trim_end {
            let mut msg = owned("Clip ");
            push_decimal(&mut msg, i as u64);
            msg.append(" keeps nothing: its trim end is not after its trim start");
            return Err(VideoError::new(ErrorKind::InvalidClip { index: i }, msg));
        }
        i = i + 1;
    }
    Ok(())
}

/// Starts an export run of `config` in `work_dir`. A job with no clips is refused
/// before anything is run.
pub fn export_video(config: ExportConfig, work_dir: String) -> (r: Result<ExportRun, VideoError>)
    requires
        forall|i: int| 0 <= i < config.clips@.len() ==> (#[trigger] config.clips@[i]).well_formed(),
    ensures
        config.clips@.len() == 0 <==> r is Err,
        r matches Err(e) ==> e.kind == ErrorKind::EmptyJob,
        r matches Ok(run) ==> {
            &&& run.wf()
            &&& run.clips@ == config.clips@
            &&& run.output_path@ == config.output_path@
            &&& run.work_dir@ == work_dir@
            &&& run.phase == ExportPhase::Trimming { index: 0 }
        },
{
    if config.clips.len() == 0 {
        return Err(VideoError::new(ErrorKind::EmptyJob, owned("No clips to export")));
    }
    Ok(ExportRun {
        clips: config.clips,
        output_path: config.output_path,
        work_dir,
        phase: ExportPhase::Trimming { index: 0 },
        outcome: None,
        remove: Vec::new(),
        remove_dir: false,
    })
}

impl ExportRun {
    /// The engine run that the current phase asked for exited; `success` is
    /// whether its exit status was zero, `stderr` its error stream.
    pub fn on_engine_exit(&mut self, success: bool, stderr: String)
        requires
            old(self).wf(),
            old(self).phase is Trimming || old(self).phase is Concatenating,
        ensures
            final(self).wf(),
            final(self).clips@ == old(self).clips@,
            final(self).output_path@ == old(self).output_path@,
            final(self).work_dir@ == old(self).work_dir@,
            match old(self).phase {
                ExportPhase::Trimming { index } => {
                    if !success {
                        // Every intermediate made so far is removed, the
                        // failing clip's own partial one included.
                        &&& final(self).phase == ExportPhase::Finished
                        &&& final(self).outcome matches Some(Err(e))
                        &&& e.kind == (ErrorKind::TrimFailed { index })
                        &&& e.message@ == trim_failed_text(index as nat, stderr@)
                        &&& views(final(self).remove@) == intermediates(old(self).work_dir@,
                            if old(self).n() == 1 { 0 } else { index as nat + 1 })
                        &&& final(self).remove_dir == (old(self).n() >= 2)
                    } else if index + 1 < old(self).n() {
                        final(self).phase == (ExportPhase::Trimming { index: (index + 1) as usize })
                    } else if old(self).n() == 1 {
                        &&& final(self).phase == ExportPhase::Finished
                        &&& final(self).outcome matches Some(Ok(p))
                        &&& p@ == old(self).output_path@
                        &&& final(self).remove@.len() == 0
                        &&& !final(self).remove_dir
                    } else {
                        final(self).phase == ExportPhase::WritingManifest
                    }
                },
                _ => {
                    &&& final(self).phase == ExportPhase::Finished
                    &&& if success {
                        &&& final(self).outcome matches Some(Ok(p))
                        &&& p@ == old(self).output_path@
                        // Every intermediate and the manifest are removed, then the directory.
                        &&& views(final(self).remove@) == intermediates(old(self).work_dir@, old(self).n())
                            .push(manifest_path(old(self).work_dir@))
                        &&& final(self).remove_dir
                    } else {
                        // The intermediates are kept for inspection.
                        &&& final(self).outcome matches Some(Err(e))
                        &&& e.kind == ErrorKind::ConcatFailed
                        &&& e.message@ == concat_failed_text(stderr@)
                        &&& final(self).remove@.len() == 0
                        &&& !final(self).remove_dir
                    }
                },
            },
    {
        let n = self.clips.len();
        match self.phase {
            ExportPhase::Trimming { index } => {
                if !success {
                    let mut msg = owned("FFmpeg trim failed for clip ");
                    push_decimal(&mut msg, index as u64);
                    msg.append(": ");
                    msg.append(stderr.as_str());
                    let made = if n == 1 { 0 } else { index + 1 };
                    self.remove = intermediate_files(self.work_dir.as_str(), made);
                    self.remove_dir = n >= 2;
                    self.outcome = Some(Err(VideoError::new(ErrorKind::TrimFailed { index }, msg)));
                    self.phase = ExportPhase::Finished;
                } else if index + 1 < n {
                    self.phase = ExportPhase::Trimming { index: index + 1 };
                } else if n == 1 {
                    self.outcome = Some(Ok(self.output_path.clone()));
                    self.phase = ExportPhase::Finished;
                } else {
                    self.phase = ExportPhase::WritingManifest;
                }
            },
            _ => {
                if success {
                    let mut files = intermediate_files(self.work_dir.as_str(), n);
                    push_arg(&mut files, manifest_file(self.work_dir.as_str()));
                    self.remove = files;
                    self.remove_dir = true;
                    self.outcome = Some(Ok(self.output_path.clone()));
                } else {
                    let mut msg = owned("FFmpeg concat failed: ");
                    msg.append(stderr.as_str());
                    self.outcome = Some(Err(VideoError::new(ErrorKind::ConcatFailed, msg)));
                }
                self.phase = ExportPhase::Finished;
            },
        }
    }

    /// The engine run that the current phase asked for could not be started:
    /// the run fails with `EngineMissing`, and whatever it made is removed.
    pub fn on_engine_missing(&mut self)
        requires
            old(self).wf(),
            old(self).phase is Trimming || old(self).phase is Concatenating,
        ensures
            final(self).wf(),
            final(self).clips@ == old(self).clips@,
            final(self).output_path@ == old(self).output_path@,
            final(self).work_dir@ == old(self).work_dir@,
            final(self).phase == ExportPhase::Finished,
            final(self).outcome matches Some(Err(e)) && e.kind == ErrorKind::EngineMissing,
            old(self).phase matches ExportPhase::Trimming { index } ==> views(final(self).remove@)
                == intermediates(old(self).work_dir@, if old(self).n() == 1 { 0 } else { index as nat }),
            old(self).phase is Concatenating ==> views(final(self).remove@)
                == intermediates(old(self).work_dir@, old(self).n()).push(manifest_path(old(self).work_dir@)),
            final(self).remove_dir == (old(self).n() >= 2),
    {
        let n = self.clips.len();
        match self.phase {
            ExportPhase::Trimming { index } => {
                let made = if n == 1 { 0 } else { index };
                self.remove = intermediate_files(self.work_dir.as_str(), made);
            },
            _ => {
                let mut files = intermediate_files(self.work_dir.as_str(), n);
                push_arg(&mut files, manifest_file(self.work_dir.as_str()));
                self.remove = files;
            },
        }
        self.remove_dir = n >= 2;
        self.outcome = Some(Err(VideoError::new(
            ErrorKind::EngineMissing,
            owned("FFmpeg not found. Please install FFmpeg to export videos."),
        )));
        self.phase = ExportPhase::Finished;
    }

    /// The manifest write that the current phase asked for is done; `ok` is
    /// whether it worked, `error` the reason where it did not.
    pub fn on_manifest_written(&mut self, ok: bool, error: String)
        requires
            old(self).wf(),
            old(self).phase == ExportPhase::WritingManifest,
        ensures
            final(self).wf(),
            final(self).clips@ == old(self).clips@,
            final(self).output_path@ == old(self).output_path@,
            final(self).work_dir@ == old(self).work_dir@,
            ok ==> final(self).phase == ExportPhase::Concatenating,
            !ok ==> {
                // Nothing is left to inspect: the intermediates, the manifest
                // (which may be partly written) and the directory are removed.
                &&& final(self).phase == ExportPhase::Finished
                &&& final(self).outcome matches Some(Err(e))
                &&& e.kind == ErrorKind::ManifestWriteFailed
                &&& e.message@ == "Failed to write concat list: "@ + error@
                &&& views(final(self).remove@) == intermediates(old(self).work_dir@, old(self).n())
                    .push(manifest_path(old(self).work_dir@))
                &&& final(self).remove_dir
            },
    {
        if ok {
            self.phase = ExportPhase::Concatenating;
        } else {
            let mut msg = owned("Failed to write concat list: ");
            msg.append(error.as_str());
            let n = self.clips.len();
            let mut files = intermediate_files(self.work_dir.as_str(), n);
            push_arg(&mut files, manifest_file(self.work_dir.as_str()));
            self.remove = files;
            self.remove_dir = true;
            self.outcome = Some(Err(VideoError::new(ErrorKind::ManifestWriteFailed, msg)));
            self.phase = ExportPhase::Finished;
        }
    }
}

} // verus!

verus! {

/// Two clips of one job never share an intermediate file.
pub proof fn lemma_intermediates_distinct(work_dir: Seq<char>, i: nat, j: nat)
    requires
        intermediate_path(work_dir, i) == intermediate_path(work_dir, j),
    ensures
        i == j,
{
    let a = intermediate_path(work_dir, i);
    let b = intermediate_path(work_dir, j);
    reveal_strlit("/clip_");
    reveal_strlit(".mp4");
    let k = work_dir.len() as int + 6;
    assert(a.len() == b.len());
    assert(a.subrange(k, a.len() - 4) =~= decimal(i));
    assert(b.subrange(k, b.len() - 4) =~= decimal(j));
    lemma_decimal_injective(i, j);
}

/// In a job of two or more clips, the clip at each position is cut to exactly its
/// kept span into an intermediate file of its own, and the concatenation reads
/// those intermediates once each, in clip order, so the destination holds the
/// spans of all clips one after another.
pub proof fn lemma_export_keeps_every_span(run: ExportRun)
    requires
        run.wf(),
        run.n() >= 2,
    ensures
        forall|i: nat| i < run.n() ==> {
            &&& #[trigger] run.trim_target(i) == intermediate_path(run.work_dir@, i)
            &&& trim_args(run.clips@[i as int], run.trim_target(i))[6] == seconds_text(run.clips@[i as int].span())
        },
        forall|i: nat, j: nat| i < run.n() && j < run.n() && i != j
            ==> #[trigger] run.trim_target(i) != #[trigger] run.trim_target(j),
        intermediates(run.work_dir@, run.n()).len() == run.n(),
        forall|i: int| 0 <= i < run.n() ==> #[trigger] intermediates(run.work_dir@, run.n())[i]
            == run.trim_target(i as nat),
{
    assert forall|i: nat, j: nat| i < run.n() && j < run.n() && i != j
        implies #[trigger] run.trim_target(i) != #[trigger] run.trim_target(j) by {
        if run.trim_target(i) == run.trim_target(j) {
            lemma_intermediates_distinct(run.work_dir@, i, j);
        }
    }
}

/// Cleanup when a run has ended: on success, or when the manifest could not be
/// written, every intermediate of the job and the manifest are removed; after a trim fails at `k`, the intermediates of
/// clips 0..=k are removed; after a concatenation failure nothing is removed,
/// so the intermediates stay for inspection.
pub proof fn lemma_export_cleanup(run: ExportRun)
    requires
        run.wf(),
        run.phase == ExportPhase::Finished,
        run.n() >= 2,
    ensures
        run.outcome matches Some(Ok(_)) || failed_with(run.outcome) == Some(ErrorKind::ManifestWriteFailed) ==> {
            &&& forall|i: nat| i < run.n() ==> views(run.remove@).contains(#[trigger] intermediate_path(run.work_dir@, i))
            &&& views(run.remove@).contains(manifest_path(run.work_dir@))
        },
        trim_failed_at(run.outcome) is Some ==> forall|i: nat|
            i <= trim_failed_at(run.outcome).unwrap() ==> views(run.remove@).contains(#[trigger] intermediate_path(run.work_dir@, i)),
        failed_with(run.outcome) == Some(ErrorKind::ConcatFailed) ==> run.remove@.len() == 0,
{
    let v = views(run.remove@);
    if run.outcome matches Some(Ok(_)) || failed_with(run.outcome) == Some(ErrorKind::ManifestWriteFailed) {
        assert forall|i: nat| i < run.n() implies v.contains(#[trigger] intermediate_path(run.work_dir@, i)) by {
            assert(v[i as int] == intermediate_path(run.work_dir@, i));
        }
        assert(v[run.n() as int] == manifest_path(run.work_dir@));
    }
    if let Some(Err(e)) = run.outcome {
        if let ErrorKind::TrimFailed { index } = e.kind {
            assert(trim_failed_at(run.outcome) == Some(index as nat));
            assert(v == intermediates(run.work_dir@, index as nat + 1));
            assert forall|i: nat| i <= index implies v.contains(#[trigger] intermediate_path(run.work_dir@, i)) by {
                assert(v[i as int] == intermediate_path(run.work_dir@, i));
            }
        }
    }
}

/// A job of one clip is cut straight to the destination: no intermediate, no
/// manifest and no concatenation at any point of the run.
pub proof fn lemma_single_clip_direct(run: ExportRun)
    requires
        run.wf(),
        run.n() == 1,
    ensures
        run.phase is Trimming || run.phase is Finished,
        run.phase matches ExportPhase::Trimming { index } ==> index == 0
            && run.trim_target(index as nat) == run.output_path@,
        run.remove@.len() == 0,
        !run.remove_dir,
{
}

} // verus!
