//! The conditions that end a launch, and the message shown for each.

use crate::launcher::{LaunchError, LaunchErrorModel};
use vstd::prelude::*;
use vstd::string::StringExecFns;

verus! {

/// The exit status of a launcher that could not bring the backend up.
pub const FAILURE_EXIT_CODE: i32 = 1;

/// Why the launcher gives up. Each of these is fatal: nothing is retried.
#[derive(Debug, PartialEq, Eq)]
pub enum StartupError {
    /// No candidate for the backend executable exists.
    NotFound {
        /// The file name under which the backend is expected.
        binary: String,
    },
    /// The operating system refused to start the backend.
    SpawnFailed(LaunchError),
    /// The backend did not accept a connection within the deadline.
    ReadinessTimeout,
}

/// A `StartupError` as specifications see it.
pub enum StartupErrorModel {
    NotFound { binary: Seq<char> },
    SpawnFailed(LaunchErrorModel),
    ReadinessTimeout,
}

impl View for StartupError {
    type V = StartupErrorModel;

    open spec fn view(&self) -> StartupErrorModel {
        match self {
            StartupError::NotFound { binary } => StartupErrorModel::NotFound { binary: binary@ },
            StartupError::SpawnFailed(error) => StartupErrorModel::SpawnFailed(error@),
            StartupError::ReadinessTimeout => StartupErrorModel::ReadinessTimeout,
        }
    }
}

impl StartupErrorModel {
    /// The text shown to the operator.
    ///
    /// A missing backend says where to put the file; a failed start gives the
    /// attempted path and the diagnostic; a timeout points at the port.
    pub open spec fn message(self) -> Seq<char> {
        match self {
            StartupErrorModel::NotFound { binary } => "Backend binary not found.\n\nPlace "@ + binary
                + " in the same folder (or in a 'binaries' subfolder) next to this application."@,
            StartupErrorModel::SpawnFailed(error) => "Failed to start the backend server.\nPath: "@
                + error.path + "\n\nDetails: "@ + error.detail,
            StartupErrorModel::ReadinessTimeout =>
                "Backend server did not start within 30 seconds.\nPlease check if port 13370 is already in use."@,
        }
    }
}

impl StartupError {
    /// Renders the message for the operator.
    pub fn message(&self) -> (text: String)
        ensures
            text@ == self@.message(),
    {
        match self {
            StartupError::NotFound { binary } => {
                let mut text = String::from_str("Backend binary not found.\n\nPlace ");
                text.append(binary.as_str());
                text.append(
                    " in the same folder (or in a 'binaries' subfolder) next to this application.",
                );
                text
            },
            StartupError::SpawnFailed(error) => {
                let mut text = String::from_str("Failed to start the backend server.\nPath: ");
                text.append(error.path.as_str());
                text.append("\n\nDetails: ");
                text.append(error.detail.as_str());
                text
            },
            StartupError::ReadinessTimeout => String::from_str(
                "Backend server did not start within 30 seconds.\nPlease check if port 13370 is already in use.",
            ),
        }
    }
}

} // verus!
