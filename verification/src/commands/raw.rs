//! The raw subcommand: an arbitrary shell command for the container.

use vstd::prelude::*;

verus! {

/// The shell command to run in the container.
#[derive(Debug, Default)]
pub struct Settings {
    pub shell_command_args: Vec<String>,
}

} // verus!
