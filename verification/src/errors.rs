//! The error taxonomy of the engine.
//!
//! Configuration errors are detected once, before any host mutation.
//! Host-mutation and process errors are reported by the surrounding
//! application code as one of the plain variants here, so that the
//! verified control logic can carry them through unchanged.

use vstd::prelude::*;

verus! {

/// Every failure the engine distinguishes.
#[derive(Clone, Copy, Debug, PartialEq, Eq, Structural)]
pub enum Error {
    /// Both insmod and modprobe were selected for module loading.
    InsmodAndModprobe,
    /// A module was configured without choosing insmod or modprobe.
    ModuleWithoutLoader,
    /// Compression was requested without capture.
    CompressWithoutCapture,
    /// A remote endpoint was configured without compression.
    RemoteWithoutCompress,
    /// A remote endpoint was configured without capture.
    RemoteWithoutCapture,
    /// A retrying execution was asked for zero attempts.
    InvalidRetryCount,
    /// An external process exited with a non-zero status.
    ProcessFailed { code: i32 },
    /// An external process could not be spawned at all.
    SpawnFailed,
    /// A control file could not be opened, written, read, or removed.
    IoFailed,
    /// A remote telemetry call failed.
    RemoteFailed,
    /// The configured job-count axis is empty.
    JobcountsEmpty,
    /// The configured block-size axis is empty.
    BlockSizesEmpty,
    /// The configured queue-depth axis is empty.
    QueueDepthsEmpty,
    /// A block-size string does not follow the size grammar.
    InvalidBlockSize,
    /// The huge-page requirement does not fit the machine word.
    HugepageCalcTooLarge,
    /// The kernel did not honor the requested huge-page pool size.
    HugepagesNotApplied,
    /// No output-directory name could be generated.
    NameGenerationFailed,
}

} // verus!
