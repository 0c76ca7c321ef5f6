use vstd::prelude::*;

verus! {

/// What went wrong, as a caller can tell failures apart.
#[derive(Debug, Clone, Copy, PartialEq, Eq, Structural)]
pub enum ErrorKind {
    FileNotFound,
    ProbeExecutionError,
    ProbeParseError,
    ConversionError,
    EmptyJob,
    InvalidClip { index: usize },
    WorkDirFailed,
    TrimFailed { index: usize },
    ConcatFailed,
    ManifestWriteFailed,
    AlreadyRecording,
    NotRecording,
    SpawnFailed,
    UnsupportedPlatform,
    OutputMissing,
    EngineMissing,
}

/// An error of a video or recording operation: its kind and a readable message
/// (with the engine's error stream attached where the engine failed).
#[derive(Debug, Clone)]
pub struct VideoError {
    pub kind: ErrorKind,
    pub message: String,
}

impl VideoError {
    /// The error as plain values: its kind and its message text.
    pub open spec fn view(&self) -> (ErrorKind, Seq<char>) {
        (self.kind, self.message@)
    }

    pub fn new(kind: ErrorKind, message: String) -> (r: VideoError)
        ensures
            r.kind == kind,
            r.message@ == message@,
    {
        VideoError { kind, message }
    }

    /// A copy of this error.
    pub fn duplicate(&self) -> (r: VideoError)
        ensures
            r.view() == self.view(),
    {
        VideoError { kind: self.kind, message: self.message.clone() }
    }

    /// The readable message, as the command surface reports it.
    pub fn to_message(&self) -> (r: String)
        ensures
            r@ == self.message@,
    {
        self.message.clone()
    }
}

/// An outcome as plain values.
pub open spec fn result_view(r: Result<String, VideoError>) -> Result<Seq<char>, (ErrorKind, Seq<char>)> {
    match r {
        Ok(s) => Ok(s@),
        Err(e) => Err(e.view()),
    }
}

} // verus!
