//! The in-sandbox runtime: checkpoint capture and restore, the checkpoint
//! sidecar, and the supervisor of the OpenCode child process.

pub mod checkpoint;
pub mod cli;
pub mod sidecar;
pub mod supervisor;

use vstd::prelude::*;

verus! {

/// The OpenCode release this runtime is built and tested against.
pub const PINNED_OPENCODE_VERSION: &'static str = "1.18.3";

/// `std::path::PathBuf`, carried through the configuration unchanged.
#[verifier::external_type_specification]
#[verifier::external_body]
pub struct ExPathBuf(std::path::PathBuf);

} // verus!
