//! The cargo subcommands' settings and decision logic; running processes is
//! the callers' business.

pub mod buildcmd;
pub mod check;
pub mod raw;
