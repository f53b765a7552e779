//! The backends a job can run on, and the trait they share.

pub mod docker;
pub mod lxc;

use vstd::prelude::*;
use crate::backends::lxc::LxcError;
use crate::docker::DockerError;

verus! {

/// Why a backend could not be set up.
#[derive(Debug, Clone, Copy, PartialEq, Eq)]
pub enum BackendError {
    Docker(DockerError),
    Lxc(LxcError),
}

/// A container backend: it is opened for a container name and creates that
/// container from an image and a release.
pub trait Backend<'a> {
    type CreateResult;

    fn new(name: &'a str) -> Result<Self, BackendError>
        where Self: Sized;

    fn create(&self, image: &'a str, release: &'a str) -> Self::CreateResult;
}

} // verus!
