//! The per-connection pipeline: one decoder, one encoder and one service over
//! one socket, with any number of invocations concurrently in flight.
//!
//! The pipeline correlates responses to requests purely by seq. Its
//! well-formedness equation keeps the books balanced at every step: the seqs
//! answered so far together with the seqs still in flight are exactly the
//! seqs dispatched, as multisets — so completion order never matters, and
//! when the in-flight set drains, every dispatched seq has been answered
//! exactly once.
//!
//! A failure to decode one Invoke's payload at the user level never creates a
//! task: it is answered directly with an error response for its seq, and the
//! decoder, the in-flight set and every other response are left exactly as
//! they were — later well-formed requests proceed unhindered.

use vstd::multiset::Multiset;
use vstd::prelude::*;

use crate::context::Context;
use crate::decoder::{
    DecodeStep, Decoder, DecoderState, decoded_one, fault_visible, may_wait, nothing_complete,
    suspended_in_place,
};
use crate::encoder::Encoder;
use crate::error::ConnectionError;
use crate::messages::{Deadline, InvocationError, Request, RequestV, Response, ResponseV};

verus! {

/// The seqs of the Invoke responses among the given responses, in order;
/// Ping responses carry no invocation and are passed over.
pub open spec fn invoke_seqs(rs: Seq<ResponseV>) -> Seq<u64>
    decreases rs.len(),
{
    if rs.len() == 0 {
        seq![]
    } else {
        let rest = invoke_seqs(rs.drop_last());
        match rs.last() {
            ResponseV::Invoke(seq, _) => rest.push(seq),
            ResponseV::Ping(_) => rest,
        }
    }
}

proof fn lemma_invoke_seqs_append_one(rs: Seq<ResponseV>, r: ResponseV)
    ensures
        invoke_seqs(rs + seq![r]) == match r {
            ResponseV::Invoke(seq, _) => invoke_seqs(rs).push(seq),
            ResponseV::Ping(_) => invoke_seqs(rs),
        },
{
    assert((rs + seq![r]).drop_last() =~= rs);
    assert((rs + seq![r]).last() == r);
}

/// The runtime's handle on one invocation to be executed: its seq, its
/// deadline (informational only; nothing cancels an overrunning invocation),
/// the context its execution sees, and the payload bytes to hand to the
/// service.
pub struct Invocation {
    pub seq: u64,
    pub deadline: Deadline,
    pub context: Context,
    pub payload: Vec<u8>,
}

/// What one dispatch step of the connection did.
pub enum DispatchStep {
    /// An Invoke was decoded; the caller must start this invocation and
    /// report its completion with `complete_invocation`.
    Invoke(Invocation),
    /// A Ping was decoded and answered internally with this seq.
    Ping(u64),
    /// No complete request is buffered; feed more bytes and come back.
    NotReady,
    /// The host closed the stream cleanly; no further request will arrive.
    Eof,
    /// A connection-fatal fault; this connection ends, others are unaffected.
    Fatal(ConnectionError),
}

/// One connection's decode → dispatch → encode pipeline.
pub struct Connection {
    /// Decodes the read half.
    pub decoder: Decoder,
    /// Queues and flushes responses on the write half.
    pub encoder: Encoder,
    /// The seqs of the invocations in flight: dispatched, not yet completed.
    pub inflight: Vec<u64>,
    /// The seqs of every Invoke dispatched or answered directly, in order.
    pub dispatched: Ghost<Seq<u64>>,
}

impl Connection {
    /// The books balance: the Invoke responses produced so far and the
    /// invocations still in flight are together exactly the dispatched
    /// invocations, counted with multiplicity.
    pub open spec fn wf(self) -> bool {
        &&& self.encoder.wf()
        &&& invoke_seqs(self.encoder.sent@).to_multiset().add(self.inflight@.to_multiset())
            == self.dispatched@.to_multiset()
    }

    /// A fresh pipeline around one accepted socket.
    pub fn new() -> (c: Connection)
        ensures
            c.wf(),
            c.decoder.buf@.len() == 0,
            c.decoder.state == DecoderState::PendingHeader,
            !c.decoder.eof,
            c.decoder.produced@ =~= Seq::<RequestV>::empty(),
            c.encoder.sent@ =~= Seq::<ResponseV>::empty(),
            c.encoder.taken@ =~= Seq::<u8>::empty(),
            c.inflight@ =~= Seq::<u64>::empty(),
            c.dispatched@ =~= Seq::<u64>::empty(),
    {
        let c = Connection {
            decoder: Decoder::new(),
            encoder: Encoder::new(),
            inflight: Vec::new(),
            dispatched: Ghost(Seq::empty()),
        };
        proof {
            broadcast use vstd::seq_lib::group_to_multiset_ensures;

            assert(invoke_seqs(c.encoder.sent@) =~= Seq::<u64>::empty());
            assert(invoke_seqs(c.encoder.sent@).to_multiset() =~= Multiset::<u64>::empty());
            assert(c.inflight@.to_multiset() =~= Multiset::<u64>::empty());
            assert(c.dispatched@.to_multiset() =~= Multiset::<u64>::empty());
            assert(invoke_seqs(c.encoder.sent@).to_multiset().add(c.inflight@.to_multiset())
                =~= c.dispatched@.to_multiset());
        }
        c
    }

    /// Hands the connection the bytes one read returned.
    pub fn feed(&mut self, chunk: &[u8])
        requires
            old(self).wf(),
        ensures
            final(self).wf(),
            final(self).decoder.buf@ == old(self).decoder.buf@ + chunk@,
            final(self).decoder.state == old(self).decoder.state,
            final(self).decoder.produced == old(self).decoder.produced,
            final(self).encoder == old(self).encoder,
            final(self).inflight == old(self).inflight,
            final(self).dispatched == old(self).dispatched,
    {
        self.decoder.push_bytes(chunk);
    }

    /// Records that the read half reached end of input.
    pub fn finish_input(&mut self)
        requires
            old(self).wf(),
        ensures
            final(self).wf(),
            final(self).decoder.eof,
            final(self).decoder.produced == old(self).decoder.produced,
            final(self).encoder == old(self).encoder,
            final(self).inflight == old(self).inflight,
            final(self).dispatched == old(self).dispatched,
    {
        self.decoder.signal_eof();
    }

    /// Decodes and dispatches at most one request, in the priority order the
    /// pipeline fixes: a Ping is answered on the spot by queuing its
    /// response; an Invoke becomes a new in-flight invocation handed back to
    /// the caller to start. Every dispatched request is exactly what the
    /// consumed bytes decode to, and a step that dispatches nothing shows
    /// why: nothing complete buffered, a clean end between messages, or a
    /// connection-fatal fault.
    pub fn poll_dispatch(&mut self) -> (step: DispatchStep)
        requires
            old(self).wf(),
        ensures
            final(self).wf(),
            final(self).encoder.taken == old(self).encoder.taken,
            final(self).decoder.eof == old(self).decoder.eof,
            old(self).decoder.state is End ==> step is Eof,
            old(self).decoder.state is Failed ==> step matches DispatchStep::Fatal(_),
            match step {
                DispatchStep::Ping(seq) => {
                    &&& final(self).decoder.produced@ == old(self).decoder.produced@ + seq![
                        RequestV::Ping(seq),
                    ]
                    &&& decoded_one(old(self).decoder, final(self).decoder, RequestV::Ping(seq))
                    &&& final(self).decoder.state == DecoderState::PendingHeader
                    &&& final(self).encoder.sent@ == old(self).encoder.sent@ + seq![
                        ResponseV::Ping(seq),
                    ]
                    &&& final(self).inflight == old(self).inflight
                    &&& final(self).dispatched == old(self).dispatched
                },
                DispatchStep::Invoke(inv) => {
                    &&& final(self).decoder.produced@.last() matches RequestV::Invoke(m)
                        && final(self).decoder.produced@ == old(self).decoder.produced@ + seq![
                        RequestV::Invoke(m),
                    ]
                        && decoded_one(old(self).decoder, final(self).decoder, RequestV::Invoke(m))
                        && inv.seq == m.seq
                        && inv.payload@ == m.payload
                        && inv.deadline == m.deadline
                        && inv.context@.aws_request_id == m.request_id
                        && inv.context@.invoked_function_arn == m.invoked_function_arn
                        && inv.context@.identity.cognito_identity_id == m.cognito_identity_id
                        && inv.context@.identity.cognito_identity_pool_id
                        == m.cognito_identity_pool_id
                    &&& final(self).decoder.state == DecoderState::PendingHeader
                    &&& final(self).inflight@ == old(self).inflight@.push(inv.seq)
                    &&& final(self).dispatched@ == old(self).dispatched@ + seq![inv.seq]
                    &&& final(self).encoder.sent == old(self).encoder.sent
                },
                DispatchStep::NotReady => {
                    &&& final(self).decoder.produced == old(self).decoder.produced
                    &&& final(self).encoder.sent == old(self).encoder.sent
                    &&& final(self).inflight == old(self).inflight
                    &&& final(self).dispatched == old(self).dispatched
                    &&& !old(self).decoder.eof
                    &&& nothing_complete(old(self).decoder)
                    &&& may_wait(old(self).decoder)
                    &&& suspended_in_place(old(self).decoder, final(self).decoder)
                    &&& !(final(self).decoder.state is End) && !(final(self).decoder.state
                        is Failed)
                },
                DispatchStep::Eof => {
                    &&& final(self).decoder.produced == old(self).decoder.produced
                    &&& final(self).encoder.sent == old(self).encoder.sent
                    &&& final(self).inflight == old(self).inflight
                    &&& final(self).dispatched == old(self).dispatched
                    &&& final(self).decoder.state == DecoderState::End
                    &&& (old(self).decoder.state is PendingHeader && old(
                        self,
                    ).decoder.buf@.len() == 0 && old(self).decoder.eof || old(
                        self,
                    ).decoder.state is End)
                },
                DispatchStep::Fatal(e) => {
                    &&& final(self).decoder.produced == old(self).decoder.produced
                    &&& final(self).encoder.sent == old(self).encoder.sent
                    &&& final(self).inflight == old(self).inflight
                    &&& final(self).dispatched == old(self).dispatched
                    &&& final(self).decoder.state == DecoderState::Failed
                    &&& match e {
                        ConnectionError::Frame(_) => fault_visible(old(self).decoder),
                        ConnectionError::UnexpectedEndOfStream => old(self).decoder.eof
                            && nothing_complete(old(self).decoder),
                        ConnectionError::Io(_) => false,
                    }
                },
            },
    {
        match self.decoder.poll() {
            DecodeStep::Request(Request::Ping(seq)) => {
                self.encoder.start_send(&Response::Ping(seq));
                proof {
                    lemma_invoke_seqs_append_one(
                        old(self).encoder.sent@,
                        ResponseV::Ping(seq),
                    );
                }
                DispatchStep::Ping(seq)
            },
            DecodeStep::Request(Request::Invoke(m)) => {
                let context = m.context();
                let seq = m.seq;
                let deadline = m.deadline;
                self.inflight.push(seq);
                proof {
                    broadcast use vstd::seq_lib::group_to_multiset_ensures;

                    self.dispatched@ = self.dispatched@ + seq![seq];
                    assert((old(self).dispatched@ + seq![seq]).drop_last() =~= old(
                        self,
                    ).dispatched@);
                    assert(old(self).dispatched@.push(seq) =~= old(self).dispatched@ + seq![seq]);
                    assert(invoke_seqs(self.encoder.sent@).to_multiset().add(
                        self.inflight@.to_multiset(),
                    ) =~= self.dispatched@.to_multiset());
                }
                DispatchStep::Invoke(
                    Invocation { seq, deadline, context, payload: m.payload },
                )
            },
            DecodeStep::NotReady => DispatchStep::NotReady,
            DecodeStep::Eof => DispatchStep::Eof,
            DecodeStep::Frame(fault) => DispatchStep::Fatal(ConnectionError::Frame(fault)),
            DecodeStep::TruncatedStream => DispatchStep::Fatal(
                ConnectionError::UnexpectedEndOfStream,
            ),
        }
    }

    /// Reports that the invocation with this seq ran to completion, with its
    /// outcome — success bytes or a structured failure. Its response is
    /// queued and the invocation leaves the in-flight set. Completions may
    /// arrive in any order.
    pub fn complete_invocation(&mut self, seq: u64, outcome: Result<Vec<u8>, InvocationError>)
        requires
            old(self).wf(),
            old(self).inflight@.contains(seq),
        ensures
            final(self).wf(),
            final(self).decoder == old(self).decoder,
            final(self).dispatched == old(self).dispatched,
            final(self).encoder.taken == old(self).encoder.taken,
            final(self).encoder.sent@ == old(self).encoder.sent@ + seq![
                ResponseV::Invoke(
                    seq,
                    match outcome {
                        Ok(p) => Ok(p@),
                        Err(e) => Err(e@),
                    },
                ),
            ],
            final(self).inflight@.to_multiset() == old(self).inflight@.to_multiset().remove(seq),
            final(self).inflight@.len() == old(self).inflight@.len() - 1,
    {
        broadcast use vstd::seq_lib::group_to_multiset_ensures;

        let mut i: usize = 0;
        let ghost iv = self.inflight@;
        while i < self.inflight.len() && self.inflight[i] != seq
        invariant
            i <= iv.len(),
            iv == self.inflight@,
            iv.contains(seq),
            forall|j: int| 0 <= j < i ==> iv[j] != seq,
        decreases iv.len() - i,
        {
            i = i + 1;
        }
        assert(i < iv.len() && iv[i as int] == seq);
        let resp = Response::Invoke(seq, outcome);
        let ghost rv = resp@;
        self.inflight.remove(i);
        self.encoder.start_send(&resp);
        proof {
            lemma_invoke_seqs_append_one(old(self).encoder.sent@, rv);
            assert(invoke_seqs(self.encoder.sent@) =~= invoke_seqs(
                old(self).encoder.sent@,
            ).push(seq));
            assert(self.inflight@.to_multiset() =~= iv.to_multiset().remove(seq));
            assert(invoke_seqs(self.encoder.sent@).to_multiset() =~= invoke_seqs(
                old(self).encoder.sent@,
            ).to_multiset().insert(seq));
            assert(invoke_seqs(self.encoder.sent@).to_multiset().add(
                self.inflight@.to_multiset(),
            ) =~= self.dispatched@.to_multiset());
        }
    }

    /// Reports that one Invoke's payload could not be decoded at the user
    /// level. No invocation starts for it: an error response tagged with its
    /// seq is queued directly, and nothing else changes — the decoder, every
    /// in-flight invocation and every other response are exactly as they
    /// were, so subsequent well-formed requests proceed unaffected.
    pub fn fail_invocation(&mut self, seq: u64, err: InvocationError)
        requires
            old(self).wf(),
        ensures
            final(self).wf(),
            final(self).decoder == old(self).decoder,
            final(self).inflight == old(self).inflight,
            final(self).encoder.taken == old(self).encoder.taken,
            final(self).encoder.sent@ == old(self).encoder.sent@ + seq![
                ResponseV::Invoke(seq, Err(err@)),
            ],
            final(self).dispatched@ == old(self).dispatched@ + seq![seq],
    {
        broadcast use vstd::seq_lib::group_to_multiset_ensures;

        let resp = Response::Invoke(seq, Err(err));
        let ghost rv = resp@;
        self.encoder.start_send(&resp);
        proof {
            self.dispatched@ = self.dispatched@ + seq![seq];
            lemma_invoke_seqs_append_one(old(self).encoder.sent@, rv);
            assert(invoke_seqs(self.encoder.sent@) =~= invoke_seqs(
                old(self).encoder.sent@,
            ).push(seq));
            assert(old(self).dispatched@.push(seq) =~= old(self).dispatched@ + seq![seq]);
            assert(invoke_seqs(self.encoder.sent@).to_multiset().add(
                self.inflight@.to_multiset(),
            ) =~= self.dispatched@.to_multiset());
        }
    }

    /// The connection is complete: the stream ended cleanly, nothing is in
    /// flight, and every queued response byte has left.
    pub fn is_done(&self) -> (r: bool)
        ensures
            r == (self.decoder.state == DecoderState::End && self.inflight@.len() == 0
                && self.encoder.queue@.len() == 0),
    {
        self.decoder.state == DecoderState::End && self.inflight.len() == 0
            && self.encoder.is_flushed()
    }
}

/// Each produced Invoke response carries the seq of its originating request
/// exactly once, independent of completion order: once nothing is in flight,
/// a connection whose dispatched seqs were distinct has answered every one of
/// them exactly once, and no other.
pub proof fn lemma_responses_correlate(c: Connection)
    requires
        c.wf(),
        c.inflight@.len() == 0,
        c.dispatched@.no_duplicates(),
    ensures
        invoke_seqs(c.encoder.sent@).len() == c.dispatched@.len(),
        forall|s: u64| #[trigger] c.dispatched@.contains(s) ==> invoke_seqs(
            c.encoder.sent@,
        ).to_multiset().count(s) == 1,
        forall|s: u64| !c.dispatched@.contains(s) ==> invoke_seqs(
            c.encoder.sent@,
        ).to_multiset().count(s) == 0,
{
    broadcast use vstd::seq_lib::group_to_multiset_ensures;
    broadcast use vstd::multiset::group_multiset_axioms;

    assert(c.inflight@.to_multiset() =~= Multiset::<u64>::empty());
    assert(invoke_seqs(c.encoder.sent@).to_multiset() =~= c.dispatched@.to_multiset());
    assert(invoke_seqs(c.encoder.sent@).to_multiset().len() == invoke_seqs(
        c.encoder.sent@,
    ).len());
    assert(c.dispatched@.to_multiset().len() == c.dispatched@.len());
    c.dispatched@.lemma_multiset_has_no_duplicates();
    assert forall|s: u64| #[trigger] c.dispatched@.contains(s) implies invoke_seqs(
        c.encoder.sent@,
    ).to_multiset().count(s) == 1 by {
        assert(c.dispatched@.to_multiset().contains(s));
    }
    assert forall|s: u64| !c.dispatched@.contains(s) implies invoke_seqs(
        c.encoder.sent@,
    ).to_multiset().count(s) == 0 by {
        if c.dispatched@.to_multiset().count(s) > 0 {
            assert(c.dispatched@.contains(s));
        }
    }
}

} // verus!
