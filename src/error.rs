//! The kinds of failure that end a theme change.
use vstd::prelude::*;

verus! {

/// Why applying a theme failed.
#[derive(Clone, Copy, Debug, PartialEq, Eq, Structural)]
pub enum ThemeError {
    /// Neither `SNAP_REAL_HOME` nor `HOME` is set.
    EnvironmentMissing,
    /// The configuration could not be loaded.
    ConfigLoad,
    /// A subprocess could not be started.
    SubprocessSpawn,
    /// A subprocess exited with a failure status.
    SubprocessExit,
    /// A target file could not be read as text.
    FileRead,
    /// A target file could not be written.
    FileWrite,
    /// A subprocess printed text that is not valid UTF-8.
    Utf8Decode,
}

} // verus!
