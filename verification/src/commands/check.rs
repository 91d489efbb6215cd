//! The check subcommand: what to verify, and where.

use vstd::prelude::*;

verus! {

/// What the check covers: the container tooling alone, or the code in it.
#[derive(Clone, Copy, Debug, PartialEq, Eq, Structural)]
pub enum CheckScope {
    Docker,
    Rust,
}

/// Options to pass through to the check invocation.
#[derive(Debug, Default)]
pub struct Settings {
    pub cargo_options: Vec<String>,
}

} // verus!
