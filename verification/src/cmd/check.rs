//! The command that checks the types of a project.
use std::path::PathBuf;
use vstd::prelude::*;

verus! {

/// What the command is called with.
pub struct Args {
    /// The directory of the project, where it is not the current one.
    pub directory: Option<PathBuf>,
}

} // verus!
