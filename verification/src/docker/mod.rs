//! The connection to the Docker daemon.

pub mod images;

use vstd::prelude::*;

verus! {

/// Why the Docker daemon cannot be used.
#[derive(Debug, Clone, Copy, PartialEq, Eq)]
pub enum DockerError {
    /// The daemon did not answer a ping.
    PingFailed,
}

impl DockerError {
    /// The text of the error.
    pub fn message(&self) -> (s: &'static str)
        ensures
            s@ == "Failed to ping docker."@,
    {
        match self {
            DockerError::PingFailed => "Failed to ping docker.",
        }
    }
}

/// Whether a connection may be used, given whether the daemon answered a
/// ping on it.
pub fn check_ping(answered: bool) -> (r: Result<(), DockerError>)
    ensures
        answered <==> r is Ok,
        !answered ==> r == Err::<(), DockerError>(DockerError::PingFailed),
{
    if answered {
        Ok(())
    } else {
        Err(DockerError::PingFailed)
    }
}

} // verus!
