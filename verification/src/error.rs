//! Error taxonomy of the runtime.
//!
//! Connection-fatal conditions end only the affected connection; a failure of
//! one invocation is reported in that invocation's response and leaves the
//! connection and all other in-flight work untouched; process-fatal
//! conditions abort startup before any connection is accepted.

use vstd::prelude::*;
use vstd::string::StringExecFns;

verus! {

/// A framing-level fault found while decoding the byte stream.
#[derive(Clone, Copy, Debug, PartialEq, Eq, Structural)]
pub enum FrameFault {
    /// The header named a service method this runtime does not implement.
    UnknownServiceMethod,
    /// The bytes do not form a well-framed record.
    Malformed,
}

/// Error that ends exactly one connection.
#[derive(Debug, PartialEq)]
pub enum ConnectionError {
    /// The transport failed; the text describes the fault.
    Io(String),
    /// The byte stream broke the framing rules.
    Frame(FrameFault),
    /// The stream ended in the middle of a message.
    UnexpectedEndOfStream,
}

impl ConnectionError {
    /// A short description of the error.
    pub fn describe(&self) -> (r: String)
        ensures
            match self {
                ConnectionError::Io(m) => r@ == m@,
                ConnectionError::Frame(FrameFault::UnknownServiceMethod) => r@
                    == "unknown service method"@,
                ConnectionError::Frame(FrameFault::Malformed) => r@ == "malformed message framing"@,
                ConnectionError::UnexpectedEndOfStream => r@ == "unexpected end of stream"@,
            },
    {
        match self {
            ConnectionError::Io(m) => m.clone(),
            ConnectionError::Frame(FrameFault::UnknownServiceMethod) => String::from_str(
                "unknown service method",
            ),
            ConnectionError::Frame(FrameFault::Malformed) => String::from_str(
                "malformed message framing",
            ),
            ConnectionError::UnexpectedEndOfStream => String::from_str(
                "unexpected end of stream",
            ),
        }
    }
}

/// Error that can occur in the runtime around connection handling.
#[derive(Debug, PartialEq)]
pub struct RuntimeError {
    inner: RuntimeErrorInner,
}

#[derive(Debug, PartialEq)]
enum RuntimeErrorInner {
    Io(String),
    Environment(&'static str),
}

impl RuntimeError {
    /// Wraps the description of a transport fault.
    pub fn from_io(message: String) -> (r: RuntimeError)
        ensures
            r.is_io(),
            r.reason_text() == message@,
    {
        RuntimeError { inner: RuntimeErrorInner::Io(message) }
    }

    /// Describes a missing or unusable configuration value.
    pub fn environment(reason: &'static str) -> (r: RuntimeError)
        ensures
            r.is_environment(),
            r.reason_text() == reason@,
    {
        RuntimeError { inner: RuntimeErrorInner::Environment(reason) }
    }

    pub closed spec fn is_io(self) -> bool {
        self.inner is Io
    }

    pub closed spec fn is_environment(self) -> bool {
        self.inner is Environment
    }

    pub closed spec fn reason_text(self) -> Seq<char> {
        match self.inner {
            RuntimeErrorInner::Io(m) => m@,
            RuntimeErrorInner::Environment(m) => m@,
        }
    }
}

} // verus!
