use vstd::prelude::*;

verus! {

/// Why a pipeline stage, or the shortcut configuration, failed.
#[derive(Debug, Clone, Copy, PartialEq, Eq, Structural)]
pub enum PipelineError {
    NoMatchingWindow,
    WindowMinimized,
    CaptureFailed,
    OutOfBounds,
    ImageDecodeError,
    ImageEncodeError,
    ModelLoadError,
    OCRError,
    PersistenceError,
    InvalidShortcutConfig,
}

} // verus!
