//! The error taxonomy shared by every component.

use vstd::prelude::*;

verus! {

/// Why a call failed. Each kind is distinguishable so that a caller can
/// report which phase (compose / allocate / submit / wait / validate) failed.
#[derive(Clone, Copy, Debug, PartialEq, Eq, Structural)]
pub enum HarnessError {
    /// Invalid input shape: an empty fragment list, a non-positive extent,
    /// a duplicate binding or constant name, or a reused execution handle.
    /// Detected before any I/O or device interaction.
    ConfigurationError,
    /// A fragment was unreadable or the output directory could not be
    /// created. Raised only at the file-system edge, outside this crate.
    IOError,
    /// No compatible accelerator was available, or the runtime rejected an
    /// allocation or submission.
    DeviceError,
    /// Waiting on the accelerator exceeded the caller-supplied bound. The
    /// affected buffers are permanently inaccessible for that workload.
    TimeoutError,
    /// The accelerator aborted mid-execution; the same access prohibition
    /// as a timeout applies.
    Lost,
}

} // verus!
