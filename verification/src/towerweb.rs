//! The request-body plumbing of the web-framework adapter: a gateway body
//! handed out once as a byte cursor. The framework's own streaming traits
//! are implemented outside the library, over these verified parts.

use vstd::prelude::*;
use vstd::slice::slice_subrange;

use crate::gateway::Body;

verus! {

/// A request body yielded at most once to the framework's body stream.
pub struct RequestBody(pub Option<Body>);

impl RequestBody {
    /// Wraps a gateway body for one streaming hand-off.
    pub fn new(body: Body) -> (r: RequestBody)
        ensures
            r.0 matches Some(b) && b@ == body@,
    {
        RequestBody(Some(body))
    }

    /// Yields the whole body as one buffer the first time, and nothing from
    /// then on.
    pub fn poll(&mut self) -> (r: Option<RequestBodyBuf>)
        ensures
            final(self).0 is None,
            match old(self).0 {
                Some(b) => r matches Some(buf) && buf.wf() && buf.remaining_bytes() == b@,
                None => r is None,
            },
    {
        match self.0.take() {
            Some(body) => Some(RequestBodyBuf { body, pos: 0 }),
            None => None,
        }
    }
}

/// A cursor over one body's bytes: what the framework consumes piecewise.
pub struct RequestBodyBuf {
    body: Body,
    pos: usize,
}

impl RequestBodyBuf {
    /// The cursor never runs past the body.
    pub closed spec fn wf(self) -> bool {
        self.pos <= self.body@.len()
    }

    /// The bytes not yet consumed.
    pub closed spec fn remaining_bytes(self) -> Seq<u8> {
        self.body@.skip(self.pos as int)
    }

    /// How many bytes are left.
    pub fn remaining(&self) -> (r: usize)
        requires
            self.wf(),
        ensures
            r == self.remaining_bytes().len(),
    {
        self.body.as_bytes().len() - self.pos
    }

    /// The bytes not yet consumed.
    pub fn bytes(&self) -> (r: &[u8])
        requires
            self.wf(),
        ensures
            r@ == self.remaining_bytes(),
    {
        let all = self.body.as_bytes();
        slice_subrange(all, self.pos, all.len())
    }

    /// Consumes the first `cnt` remaining bytes.
    pub fn advance(&mut self, cnt: usize)
        requires
            old(self).wf(),
            cnt <= old(self).remaining_bytes().len(),
        ensures
            final(self).wf(),
            final(self).remaining_bytes() == old(self).remaining_bytes().skip(cnt as int),
    {
        let blen = self.body.as_bytes().len();
        assert(self.pos + cnt <= blen);
        self.pos = self.pos + cnt;
        proof {
            assert(final(self).remaining_bytes() =~= old(self).remaining_bytes().skip(
                cnt as int,
            ));
        }
    }
}

} // verus!
