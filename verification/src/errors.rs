//! Closed error types for the two layers: session establishment and command
//! orchestration.

use vstd::prelude::*;

verus! {

/// Why session establishment failed.
#[derive(Debug, Clone, Copy, PartialEq, Eq, Structural)]
pub enum EstablishError {
    /// The bridge endpoint could not be reached.
    ConnectionFailed,
    /// The device list could not be obtained.
    EnumerationFailed,
    /// Default selection was needed but the bridge reported no devices.
    NoDevicesFound,
    /// The chosen device rejected the attach request.
    AttachFailed,
}

/// Which protocol call was in flight when a failure surfaced.
#[derive(Debug, Clone, Copy, PartialEq, Eq, Structural)]
pub enum CallKind {
    GetInfo,
    ListFiles,
    PutFile,
    RemoveFile,
    ReadMemory,
}

/// Why a command failed.
#[derive(Debug, PartialEq, Eq)]
pub enum CommandError {
    /// A local file could not be read.
    LocalReadFailed { path: String },
    /// No base name could be extracted from a local path.
    InvalidFileName { path: String },
    /// A protocol call reported an error.
    CallFailed { call: CallKind },
}

/// Mathematical model of a [`CommandError`].
pub ghost enum CmdFailure {
    LocalReadFailed { path: Seq<char> },
    InvalidFileName { path: Seq<char> },
    CallFailed { call: CallKind },
}

impl View for CommandError {
    type V = CmdFailure;

    open spec fn view(&self) -> CmdFailure {
        match self {
            CommandError::LocalReadFailed { path } => CmdFailure::LocalReadFailed {
                path: path@,
            },
            CommandError::InvalidFileName { path } => CmdFailure::InvalidFileName {
                path: path@,
            },
            CommandError::CallFailed { call } => CmdFailure::CallFailed { call: *call },
        }
    }
}

} // verus!
