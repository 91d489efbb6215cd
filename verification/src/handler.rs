//! Adapts a plain function into a factory of per-connection services.
//!
//! The wrapped function carries no connection-specific state, so one clone
//! per accepted connection is all a fresh service takes. The service is the
//! unit the connection pipeline actually invokes, once per dispatched
//! invocation.

use vstd::pervasive::cloned;
use vstd::prelude::*;

use crate::messages::InvocationError;

verus! {

/// Wrapper that turns a function from payload bytes to outcome into a
/// factory of per-connection services.
pub struct Handler<F> {
    pub f: F,
}

impl<F> From<F> for Handler<F> {
    fn from(f: F) -> (h: Handler<F>) {
        Handler { f }
    }
}

impl<F> vstd::std_specs::convert::FromSpecImpl<F> for Handler<F> {
    open spec fn obeys_from_spec() -> bool {
        true
    }

    open spec fn from_spec(f: F) -> Handler<F> {
        Handler { f }
    }
}

impl<F: Clone> Handler<F> {
    /// A fresh service instance for one accepted connection.
    pub fn new_service(&self) -> (s: HandlerService<F>)
        ensures
            cloned(self.f, s.f),
    {
        HandlerService { f: self.f.clone() }
    }
}

/// The per-connection service: what the connection pipeline calls once per
/// dispatched invocation.
pub struct HandlerService<F> {
    pub f: F,
}

impl<F: Fn(Vec<u8>) -> Result<Vec<u8>, InvocationError>> HandlerService<F> {
    /// A stateless service is always ready.
    pub fn poll_ready(&self) -> (r: bool)
        ensures
            r,
    {
        true
    }

    /// Runs the wrapped function on one invocation's payload.
    pub fn call(&self, payload: Vec<u8>) -> (r: Result<Vec<u8>, InvocationError>)
        requires
            call_requires(self.f, (payload,)),
        ensures
            call_ensures(self.f, (payload,), r),
    {
        (self.f)(payload)
    }
}

} // verus!
