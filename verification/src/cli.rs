//! The command line of the runner.

use vstd::prelude::*;

verus! {

/// The arguments the runner is started with: the token it identifies
/// itself with.
#[derive(Debug, Clone, PartialEq, Eq)]
pub struct Args {
    pub token: String,
}

} // verus!
