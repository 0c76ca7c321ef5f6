//! The orchestration core of a video-clipping tool. It decides what the external
//! encoding engine is asked to do (trim, concatenate, normalize, probe, capture),
//! judges how each run went, and keeps the state of an export run and of the
//! recording session. Running processes, touching files and reading clocks is
//! left to the caller, who reports back plain values.
use vstd::prelude::*;

/// Building engine argument lists.
pub mod args;
/// Error kinds and the error type.
pub mod errors;
/// The export pipeline: trim, manifest, concatenate, clean up.
pub mod export;
/// Decimal parsing: frame rates and durations.
pub mod numbers;
/// File names, extensions and the normalizer's cache paths.
pub mod paths;
/// The metadata prober and the import flow.
pub mod probe;
/// The recording session and capture arguments.
pub mod recording;
/// Decimal formatting.
pub mod text;
/// Thumbnails, named by the digest of their source path.
pub mod thumbnail;
/// Audio extraction ahead of a transcription.
pub mod transcription;

verus! {

} // verus!
