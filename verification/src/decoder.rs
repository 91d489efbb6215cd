//! Resumable decoder: turns a byte stream, arriving in pieces of arbitrary
//! size, into the sequence of requests it frames.
//!
//! The decoder retains its position in the message explicitly. Reading a
//! header determines the service method and seq; reading the body is
//! method-specific. When the buffered bytes end mid-message the decoder
//! suspends in its current state and resumes there later without re-reading
//! the header. A clean end of input is accepted only between messages; end of
//! input mid-body, an unknown service method, and ill-framed bytes are fatal
//! to the connection.

use vstd::prelude::*;

use vstd::utf8::valid_utf8;

use crate::codec::{
    dec_byte_at, dec_bytes_at, dec_header_at, dec_invoke_body_at, dec_request_at, dec_u64_at,
    read_byte, read_bytes, read_header, read_invoke_body, read_u64, string_from_utf8,
};
use crate::error::FrameFault;
use crate::messages::{
    Request, RequestV, service_method_invoke, service_method_ping, spec_method_invoke,
    spec_method_ping,
};

verus! {

/// Where the decoder stands in the framing of the stream.
#[derive(Clone, Copy, Debug, PartialEq, Eq, Structural)]
pub enum DecoderState {
    /// Between messages: the next bytes, if any, must be a header.
    PendingHeader,
    /// A Ping header with this seq was consumed; its body is still owed.
    ReadingPingBody(u64),
    /// An Invoke header with this seq was consumed; its body is still owed.
    ReadingInvokeBody(u64),
    /// The stream ended cleanly.
    End,
    /// A connection-fatal fault was found; no further request is produced.
    Failed,
}

/// What one poll of the decoder yielded.
#[derive(Debug, PartialEq)]
pub enum DecodeStep {
    /// One complete request was decoded and consumed.
    Request(Request),
    /// The buffered bytes end mid-message; feed more bytes and poll again.
    NotReady,
    /// The stream ended cleanly between messages.
    Eof,
    /// The framing is broken; the fault ends this connection.
    Frame(FrameFault),
    /// The stream ended in the middle of a message.
    TruncatedStream,
}

/// The resumable decoding state machine over one connection's read half.
pub struct Decoder {
    /// Bytes received and not yet consumed.
    pub buf: Vec<u8>,
    /// Position in the message framing.
    pub state: DecoderState,
    /// Whether the reader has signalled end of input.
    pub eof: bool,
    /// Every request produced so far, oldest first.
    pub produced: Ghost<Seq<RequestV>>,
}

/// One complete item was decoded and consumed by a step from `pre` to
/// `post`: from between messages a whole request, from a suspended state the
/// body owed to the already-consumed header.
pub open spec fn decoded_one(pre: Decoder, post: Decoder, r: RequestV) -> bool {
    match pre.state {
        DecoderState::PendingHeader => dec_request_at(pre.buf@, 0) matches Some((rv, p)) && rv == r
            && post.buf@ == pre.buf@.skip(p),
        DecoderState::ReadingPingBody(seq) => r == RequestV::Ping(seq) && dec_byte_at(pre.buf@, 0)
            == Some((0u8, 1int)) && post.buf@ == pre.buf@.skip(1),
        DecoderState::ReadingInvokeBody(seq) => dec_invoke_body_at(pre.buf@, 0, seq) matches Some(
            (m, p),
        ) && r == RequestV::Invoke(m) && post.buf@ == pre.buf@.skip(p),
        _ => false,
    }
}

/// No complete item can be decoded from the buffered bytes in this state:
/// what every poll that produced nothing must show.
pub open spec fn nothing_complete(d: Decoder) -> bool {
    match d.state {
        DecoderState::PendingHeader => dec_request_at(d.buf@, 0) is None,
        DecoderState::ReadingPingBody(_) => dec_byte_at(d.buf@, 0) is None,
        DecoderState::ReadingInvokeBody(seq) => dec_invoke_body_at(d.buf@, 0, seq) is None,
        _ => false,
    }
}

/// What scanning one field of a suspended Invoke body finds: the field is
/// fully buffered and readable, with the next field at the given position;
/// or it runs past the buffered bytes; or it is fully buffered yet can never
/// be read, however the stream continues.
pub enum FieldScanV {
    At(int),
    Short,
    Bad,
}

pub open spec fn scan_u64_field(b: Seq<u8>, pos: int) -> FieldScanV {
    match dec_u64_at(b, pos) {
        Some((_, p)) => FieldScanV::At(p),
        None => FieldScanV::Short,
    }
}

pub open spec fn scan_bytes_field(b: Seq<u8>, pos: int) -> FieldScanV {
    match dec_u64_at(b, pos) {
        Some((n, p)) => if p + n <= b.len() {
            FieldScanV::At(p + n)
        } else {
            FieldScanV::Short
        },
        None => FieldScanV::Short,
    }
}

pub open spec fn scan_string_field(b: Seq<u8>, pos: int) -> FieldScanV {
    match dec_u64_at(b, pos) {
        Some((n, p)) => if p + n <= b.len() {
            if valid_utf8(b.subrange(p, p + n)) {
                FieldScanV::At(p + n)
            } else {
                FieldScanV::Bad
            }
        } else {
            FieldScanV::Short
        },
        None => FieldScanV::Short,
    }
}

pub open spec fn scan_opt_string_field(b: Seq<u8>, pos: int) -> FieldScanV {
    match dec_byte_at(b, pos) {
        Some((0u8, p)) => FieldScanV::At(p),
        Some((1u8, p)) => scan_string_field(b, p),
        Some((_, _)) => FieldScanV::Bad,
        None => FieldScanV::Short,
    }
}

pub open spec fn scan_opt_bytes_field(b: Seq<u8>, pos: int) -> FieldScanV {
    match dec_byte_at(b, pos) {
        Some((0u8, p)) => FieldScanV::At(p),
        Some((1u8, p)) => scan_bytes_field(b, p),
        Some((_, _)) => FieldScanV::Bad,
        None => FieldScanV::Short,
    }
}

/// The suspended Invoke body walked field by field: `Bad` exactly when some
/// fully buffered field can never be read, whatever else arrives.
pub open spec fn scan_invoke_body(b: Seq<u8>, pos: int) -> FieldScanV {
    match scan_bytes_field(b, pos) {
        FieldScanV::At(p1) => match scan_string_field(b, p1) {
            FieldScanV::At(p2) => match scan_string_field(b, p2) {
                FieldScanV::At(p3) => match scan_u64_field(b, p3) {
                    FieldScanV::At(p4) => match scan_u64_field(b, p4) {
                        FieldScanV::At(p5) => match scan_string_field(b, p5) {
                            FieldScanV::At(p6) => match scan_opt_string_field(b, p6) {
                                FieldScanV::At(p7) => match scan_opt_string_field(b, p7) {
                                    FieldScanV::At(p8) => scan_opt_bytes_field(b, p8),
                                    s => s,
                                },
                                s => s,
                            },
                            s => s,
                        },
                        s => s,
                    },
                    s => s,
                },
                s => s,
            },
            s => s,
        },
        s => s,
    }
}

/// The method text of a header is fully buffered yet is not valid text: no
/// extension of the stream can make this header parse.
pub open spec fn header_text_invalid(b: Seq<u8>) -> bool {
    match dec_bytes_at(b, 0) {
        Some((raw, _)) => !valid_utf8(raw),
        None => false,
    }
}

/// Waiting for more bytes is legitimate in this state: nothing complete is
/// buffered, and nothing buffered is beyond repair — no unknown method, no
/// unreadable fully-buffered field — so an extension of the stream could
/// still complete the message.
pub open spec fn may_wait(d: Decoder) -> bool {
    match d.state {
        DecoderState::PendingHeader => match dec_header_at(d.buf@, 0) {
            None => !header_text_invalid(d.buf@),
            Some(((m, seq), p)) => if m == spec_method_ping() {
                dec_byte_at(d.buf@, p) is None
            } else if m == spec_method_invoke() {
                dec_invoke_body_at(d.buf@, p, seq) is None && !(scan_invoke_body(d.buf@, p)
                    is Bad)
            } else {
                false
            },
        },
        DecoderState::ReadingPingBody(_) => dec_byte_at(d.buf@, 0) is None,
        DecoderState::ReadingInvokeBody(seq) => dec_invoke_body_at(d.buf@, 0, seq) is None && !(
        scan_invoke_body(d.buf@, 0) is Bad),
        _ => false,
    }
}

/// A suspension keeps the continuation: either state and buffer stay exactly
/// as they were, or, from between messages, exactly the header was consumed
/// and the matching body state entered.
pub open spec fn suspended_in_place(pre: Decoder, post: Decoder) -> bool {
    (post.state == pre.state && post.buf@ == pre.buf@) || (pre.state is PendingHeader
        && match dec_header_at(pre.buf@, 0) {
        Some(((m, seq), p)) => post.buf@ == pre.buf@.skip(p) && (m == spec_method_ping()
            && post.state == DecoderState::ReadingPingBody(seq) || m == spec_method_invoke()
            && post.state == DecoderState::ReadingInvokeBody(seq)),
        None => false,
    })
}

/// The buffered bytes are already beyond repair in this state, whatever else
/// arrives — an unknown service method, a method text that is not valid
/// text, a wrong body marker, or an Invoke field that is fully buffered yet
/// can never be read — or the decoder had already failed.
pub open spec fn fault_visible(d: Decoder) -> bool {
    match d.state {
        DecoderState::PendingHeader => match dec_header_at(d.buf@, 0) {
            None => header_text_invalid(d.buf@),
            Some(((m, seq), p)) => if m == spec_method_ping() {
                dec_byte_at(d.buf@, p) matches Some((x, _)) && x != 0
            } else if m == spec_method_invoke() {
                scan_invoke_body(d.buf@, p) is Bad
            } else {
                true
            },
        },
        DecoderState::ReadingPingBody(_) => dec_byte_at(d.buf@, 0) matches Some((x, _)) && x != 0,
        DecoderState::ReadingInvokeBody(seq) => scan_invoke_body(d.buf@, 0) is Bad,
        DecoderState::Failed => true,
        DecoderState::End => false,
    }
}

impl Decoder {
    /// A fresh decoder awaiting the first header.
    pub fn new() -> (d: Decoder)
        ensures
            d.buf@.len() == 0,
            d.state == DecoderState::PendingHeader,
            !d.eof,
            d.produced@ =~= Seq::<RequestV>::empty(),
    {
        Decoder {
            buf: Vec::new(),
            state: DecoderState::PendingHeader,
            eof: false,
            produced: Ghost(Seq::empty()),
        }
    }

    /// Hands the decoder the bytes one read returned. An empty chunk is
    /// allowed and changes nothing.
    pub fn push_bytes(&mut self, chunk: &[u8])
        ensures
            final(self).buf@ == old(self).buf@ + chunk@,
            final(self).state == old(self).state,
            final(self).eof == old(self).eof,
            final(self).produced == old(self).produced,
    {
        self.buf.extend_from_slice(chunk);
    }

    /// Records that the reader reached end of input.
    pub fn signal_eof(&mut self)
        ensures
            final(self).buf == old(self).buf,
            final(self).state == old(self).state,
            final(self).eof,
            final(self).produced == old(self).produced,
    {
        self.eof = true;
    }

    /// Drops `n` consumed bytes from the front of the buffer.
    fn consume(&mut self, n: usize)
        requires
            n <= old(self).buf@.len(),
        ensures
            final(self).buf@ == old(self).buf@.skip(n as int),
            final(self).state == old(self).state,
            final(self).eof == old(self).eof,
            final(self).produced == old(self).produced,
    {
        let tail = self.buf.split_off(n);
        self.buf = tail;
    }

    /// Decodes at most one request from the buffered bytes.
    ///
    /// Every produced request is exactly what the consumed bytes decode to.
    /// A step that produces nothing shows why: waiting is answered only while
    /// the stream is open, nothing complete is buffered and nothing buffered
    /// is beyond repair, and a suspension keeps the continuation; a clean end
    /// is answered only once end of input arrives between messages; a fault
    /// is answered only when the buffered bytes can never parse, whatever
    /// else arrives, and ends the decoder for good, as does a stream
    /// truncated mid-message.
    pub fn poll(&mut self) -> (step: DecodeStep)
        ensures
            final(self).eof == old(self).eof,
            old(self).state is End ==> step is Eof,
            old(self).state is Failed ==> step matches DecodeStep::Frame(_),
            match step {
                DecodeStep::Request(r) => {
                    &&& final(self).produced@ == old(self).produced@ + seq![r@]
                    &&& final(self).state == DecoderState::PendingHeader
                    &&& decoded_one(*old(self), *final(self), r@)
                },
                DecodeStep::NotReady => {
                    &&& final(self).produced == old(self).produced
                    &&& !old(self).eof
                    &&& nothing_complete(*old(self))
                    &&& may_wait(*old(self))
                    &&& suspended_in_place(*old(self), *final(self))
                    &&& !(final(self).state is End) && !(final(self).state is Failed)
                },
                DecodeStep::Eof => {
                    &&& final(self).produced == old(self).produced
                    &&& final(self).state == DecoderState::End
                    &&& (old(self).state is PendingHeader && old(self).buf@.len() == 0 && old(
                        self,
                    ).eof || old(self).state is End)
                },
                DecodeStep::Frame(_) => {
                    &&& final(self).produced == old(self).produced
                    &&& final(self).state == DecoderState::Failed
                    &&& fault_visible(*old(self))
                },
                DecodeStep::TruncatedStream => {
                    &&& final(self).produced == old(self).produced
                    &&& final(self).state == DecoderState::Failed
                    &&& old(self).eof
                    &&& nothing_complete(*old(self))
                    &&& (old(self).state is PendingHeader ==> old(self).buf@.len() > 0)
                },
            },
    {
        match self.state {
            DecoderState::End => DecodeStep::Eof,
            DecoderState::Failed => DecodeStep::Frame(FrameFault::Malformed),
            DecoderState::PendingHeader => self.poll_pending(),
            DecoderState::ReadingPingBody(seq) => self.poll_read_ping(seq),
            DecoderState::ReadingInvokeBody(seq) => self.poll_read_invoke(seq),
        }
    }

    /// Reads a header, then goes straight for the body it announces.
    fn poll_pending(&mut self) -> (step: DecodeStep)
        requires
            old(self).state == DecoderState::PendingHeader,
        ensures
            final(self).eof == old(self).eof,
            match step {
                DecodeStep::Request(r) => {
                    &&& final(self).produced@ == old(self).produced@ + seq![r@]
                    &&& final(self).state == DecoderState::PendingHeader
                    &&& decoded_one(*old(self), *final(self), r@)
                },
                DecodeStep::NotReady => {
                    &&& final(self).produced == old(self).produced
                    &&& !old(self).eof
                    &&& nothing_complete(*old(self))
                    &&& may_wait(*old(self))
                    &&& suspended_in_place(*old(self), *final(self))
                    &&& !(final(self).state is End) && !(final(self).state is Failed)
                },
                DecodeStep::Eof => {
                    &&& final(self).produced == old(self).produced
                    &&& final(self).state == DecoderState::End
                    &&& old(self).buf@.len() == 0
                    &&& old(self).eof
                },
                DecodeStep::Frame(_) => {
                    &&& final(self).produced == old(self).produced
                    &&& final(self).state == DecoderState::Failed
                    &&& fault_visible(*old(self))
                },
                DecodeStep::TruncatedStream => {
                    &&& final(self).produced == old(self).produced
                    &&& final(self).state == DecoderState::Failed
                    &&& old(self).eof
                    &&& nothing_complete(*old(self))
                    &&& old(self).buf@.len() > 0
                },
            },
    {
        match read_header(self.buf.as_slice(), 0) {
            Some(((method, seq), p)) => {
                if crate::codec::str_eq(method.as_str(), service_method_ping()) {
                    match read_byte(self.buf.as_slice(), p) {
                        Some((0u8, p2)) => {
                            self.consume(p2);
                            let r = Request::Ping(seq);
                            proof {
                                self.produced@ = self.produced@ + seq![r@];
                            }
                            DecodeStep::Request(r)
                        },
                        Some((_, _)) => {
                            self.state = DecoderState::Failed;
                            DecodeStep::Frame(FrameFault::Malformed)
                        },
                        None => {
                            if self.eof {
                                self.state = DecoderState::Failed;
                                DecodeStep::TruncatedStream
                            } else {
                                self.consume(p);
                                self.state = DecoderState::ReadingPingBody(seq);
                                DecodeStep::NotReady
                            }
                        },
                    }
                } else if crate::codec::str_eq(method.as_str(), service_method_invoke()) {
                    match read_invoke_body(self.buf.as_slice(), p, seq) {
                        Some((m, p2)) => {
                            self.consume(p2);
                            let r = Request::Invoke(m);
                            proof {
                                self.produced@ = self.produced@ + seq![r@];
                            }
                            DecodeStep::Request(r)
                        },
                        None => {
                            if self.eof {
                                self.state = DecoderState::Failed;
                                DecodeStep::TruncatedStream
                            } else if invoke_body_is_malformed(self.buf.as_slice(), p) {
                                self.state = DecoderState::Failed;
                                DecodeStep::Frame(FrameFault::Malformed)
                            } else {
                                self.consume(p);
                                self.state = DecoderState::ReadingInvokeBody(seq);
                                DecodeStep::NotReady
                            }
                        },
                    }
                } else {
                    self.state = DecoderState::Failed;
                    DecodeStep::Frame(FrameFault::UnknownServiceMethod)
                }
            },
            None => {
                if self.eof {
                    if self.buf.len() == 0 {
                        self.state = DecoderState::End;
                        DecodeStep::Eof
                    } else {
                        self.state = DecoderState::Failed;
                        DecodeStep::TruncatedStream
                    }
                } else if header_is_malformed(self.buf.as_slice()) {
                    self.state = DecoderState::Failed;
                    DecodeStep::Frame(FrameFault::Malformed)
                } else {
                    DecodeStep::NotReady
                }
            },
        }
    }

    /// Reads the empty-record marker that stands for a Ping body.
    fn poll_read_ping(&mut self, seq: u64) -> (step: DecodeStep)
        requires
            old(self).state == DecoderState::ReadingPingBody(seq),
        ensures
            final(self).eof == old(self).eof,
            match step {
                DecodeStep::Request(r) => {
                    &&& final(self).produced@ == old(self).produced@ + seq![r@]
                    &&& final(self).state == DecoderState::PendingHeader
                    &&& decoded_one(*old(self), *final(self), r@)
                },
                DecodeStep::NotReady => {
                    &&& final(self).produced == old(self).produced
                    &&& !old(self).eof
                    &&& nothing_complete(*old(self))
                    &&& may_wait(*old(self))
                    &&& suspended_in_place(*old(self), *final(self))
                    &&& !(final(self).state is End) && !(final(self).state is Failed)
                },
                DecodeStep::Eof => false,
                DecodeStep::Frame(_) => {
                    &&& final(self).produced == old(self).produced
                    &&& final(self).state == DecoderState::Failed
                    &&& fault_visible(*old(self))
                },
                DecodeStep::TruncatedStream => {
                    &&& final(self).produced == old(self).produced
                    &&& final(self).state == DecoderState::Failed
                    &&& old(self).eof
                    &&& nothing_complete(*old(self))
                },
            },
    {
        match read_byte(self.buf.as_slice(), 0) {
            Some((0u8, p)) => {
                self.consume(p);
                self.state = DecoderState::PendingHeader;
                let r = Request::Ping(seq);
                proof {
                    self.produced@ = self.produced@ + seq![r@];
                }
                DecodeStep::Request(r)
            },
            Some((_, _)) => {
                self.state = DecoderState::Failed;
                DecodeStep::Frame(FrameFault::Malformed)
            },
            None => {
                if self.eof {
                    self.state = DecoderState::Failed;
                    DecodeStep::TruncatedStream
                } else {
                    DecodeStep::NotReady
                }
            },
        }
    }

    /// Reads the Invoke body owed to an already-consumed header.
    fn poll_read_invoke(&mut self, seq: u64) -> (step: DecodeStep)
        requires
            old(self).state == DecoderState::ReadingInvokeBody(seq),
        ensures
            final(self).eof == old(self).eof,
            match step {
                DecodeStep::Request(r) => {
                    &&& final(self).produced@ == old(self).produced@ + seq![r@]
                    &&& final(self).state == DecoderState::PendingHeader
                    &&& decoded_one(*old(self), *final(self), r@)
                },
                DecodeStep::NotReady => {
                    &&& final(self).produced == old(self).produced
                    &&& !old(self).eof
                    &&& nothing_complete(*old(self))
                    &&& may_wait(*old(self))
                    &&& suspended_in_place(*old(self), *final(self))
                    &&& !(final(self).state is End) && !(final(self).state is Failed)
                },
                DecodeStep::Eof => false,
                DecodeStep::Frame(_) => {
                    &&& final(self).produced == old(self).produced
                    &&& final(self).state == DecoderState::Failed
                    &&& fault_visible(*old(self))
                },
                DecodeStep::TruncatedStream => {
                    &&& final(self).produced == old(self).produced
                    &&& final(self).state == DecoderState::Failed
                    &&& old(self).eof
                    &&& nothing_complete(*old(self))
                },
            },
    {
        match read_invoke_body(self.buf.as_slice(), 0, seq) {
            Some((m, p)) => {
                self.consume(p);
                self.state = DecoderState::PendingHeader;
                let r = Request::Invoke(m);
                proof {
                    self.produced@ = self.produced@ + seq![r@];
                }
                DecodeStep::Request(r)
            },
            None => {
                if self.eof {
                    self.state = DecoderState::Failed;
                    DecodeStep::TruncatedStream
                } else if invoke_body_is_malformed(self.buf.as_slice(), 0) {
                    self.state = DecoderState::Failed;
                    DecodeStep::Frame(FrameFault::Malformed)
                } else {
                    DecodeStep::NotReady
                }
            },
        }
    }
}

/// True exactly when the method text is fully buffered but is not valid
/// text: a fault no extension of the stream can repair.
fn header_is_malformed(b: &[u8]) -> (r: bool)
    ensures
        r == header_text_invalid(b@),
{
    match read_u64(b, 0) {
        Some((n, p)) => {
            let blen = b.len();
            if n <= (usize::MAX - p) as u64 && p + (n as usize) <= blen {
                match read_bytes(b, 0) {
                    Some((raw, _)) => string_from_utf8(raw).is_none(),
                    None => false,
                }
            } else {
                proof {
                    if n <= (usize::MAX - p) as u64 {
                        assert(p + n > b@.len());
                    } else {
                        assert(p + n > usize::MAX);
                        assert(b@.len() <= usize::MAX);
                    }
                }
                false
            }
        },
        None => false,
    }
}

/// True exactly when the suspended Invoke body holds a fully buffered field
/// that can never be read: a fault no extension of the stream can repair.
/// A field that merely runs past the buffered bytes is not a fault.
fn invoke_body_is_malformed(b: &[u8], pos: usize) -> (r: bool)
    requires
        pos <= b@.len(),
    ensures
        r == (scan_invoke_body(b@, pos as int) is Bad),
{
    let p1 = match skip_bytes_field(b, pos) {
        FieldScan::At(p) => p,
        FieldScan::Short => {
            return false;
        },
        FieldScan::Bad => {
            return true;
        },
    };
    let p2 = match skip_string_field(b, p1) {
        FieldScan::At(p) => p,
        FieldScan::Short => {
            return false;
        },
        FieldScan::Bad => {
            return true;
        },
    };
    let p3 = match skip_string_field(b, p2) {
        FieldScan::At(p) => p,
        FieldScan::Short => {
            return false;
        },
        FieldScan::Bad => {
            return true;
        },
    };
    // the two deadline words decode from any bytes; only shortness matters
    let p4 = match skip_u64_field(b, p3) {
        FieldScan::At(p) => p,
        FieldScan::Short => {
            return false;
        },
        FieldScan::Bad => {
            return true;
        },
    };
    let p5 = match skip_u64_field(b, p4) {
        FieldScan::At(p) => p,
        FieldScan::Short => {
            return false;
        },
        FieldScan::Bad => {
            return true;
        },
    };
    let p6 = match skip_string_field(b, p5) {
        FieldScan::At(p) => p,
        FieldScan::Short => {
            return false;
        },
        FieldScan::Bad => {
            return true;
        },
    };
    let p7 = match skip_opt_string_field(b, p6) {
        FieldScan::At(p) => p,
        FieldScan::Short => {
            return false;
        },
        FieldScan::Bad => {
            return true;
        },
    };
    let p8 = match skip_opt_string_field(b, p7) {
        FieldScan::At(p) => p,
        FieldScan::Short => {
            return false;
        },
        FieldScan::Bad => {
            return true;
        },
    };
    match skip_opt_bytes_field(b, p8) {
        FieldScan::At(_) => false,
        FieldScan::Short => false,
        FieldScan::Bad => true,
    }
}

/// Outcome of scanning one field for the early-failure check.
enum FieldScan {
    /// The field is fully buffered and readable; the next field starts here.
    At(usize),
    /// The field runs past the buffered bytes.
    Short,
    /// The field is fully buffered and can never be read.
    Bad,
}

fn skip_u64_field(b: &[u8], pos: usize) -> (r: FieldScan)
    requires
        pos <= b@.len(),
    ensures
        match r {
            FieldScan::At(p) => scan_u64_field(b@, pos as int) == FieldScanV::At(p as int) && p
                <= b@.len(),
            FieldScan::Short => scan_u64_field(b@, pos as int) is Short,
            FieldScan::Bad => scan_u64_field(b@, pos as int) is Bad,
        },
{
    match read_u64(b, pos) {
        Some((_, p)) => FieldScan::At(p),
        None => FieldScan::Short,
    }
}

fn skip_bytes_field(b: &[u8], pos: usize) -> (r: FieldScan)
    requires
        pos <= b@.len(),
    ensures
        match r {
            FieldScan::At(p) => scan_bytes_field(b@, pos as int) == FieldScanV::At(p as int) && p
                <= b@.len(),
            FieldScan::Short => scan_bytes_field(b@, pos as int) is Short,
            FieldScan::Bad => scan_bytes_field(b@, pos as int) is Bad,
        },
{
    match read_u64(b, pos) {
        Some((n, p)) => {
            let blen = b.len();
            if n <= (usize::MAX - p) as u64 && p + (n as usize) <= blen {
                FieldScan::At(p + (n as usize))
            } else {
                proof {
                    if n <= (usize::MAX - p) as u64 {
                        assert(p + n > b@.len());
                    } else {
                        assert(p + n > usize::MAX);
                        assert(b@.len() <= usize::MAX);
                    }
                }
                FieldScan::Short
            }
        },
        None => FieldScan::Short,
    }
}

fn skip_string_field(b: &[u8], pos: usize) -> (r: FieldScan)
    requires
        pos <= b@.len(),
    ensures
        match r {
            FieldScan::At(p) => scan_string_field(b@, pos as int) == FieldScanV::At(p as int) && p
                <= b@.len(),
            FieldScan::Short => scan_string_field(b@, pos as int) is Short,
            FieldScan::Bad => scan_string_field(b@, pos as int) is Bad,
        },
{
    match read_u64(b, pos) {
        Some((n, p)) => {
            let blen = b.len();
            if n <= (usize::MAX - p) as u64 && p + (n as usize) <= blen {
                match read_bytes(b, pos) {
                    Some((raw, end)) => {
                        if string_from_utf8(raw).is_some() {
                            FieldScan::At(end)
                        } else {
                            FieldScan::Bad
                        }
                    },
                    None => FieldScan::Short,
                }
            } else {
                proof {
                    if n <= (usize::MAX - p) as u64 {
                        assert(p + n > b@.len());
                    } else {
                        assert(p + n > usize::MAX);
                        assert(b@.len() <= usize::MAX);
                    }
                }
                FieldScan::Short
            }
        },
        None => FieldScan::Short,
    }
}

fn skip_opt_string_field(b: &[u8], pos: usize) -> (r: FieldScan)
    requires
        pos <= b@.len(),
    ensures
        match r {
            FieldScan::At(p) => scan_opt_string_field(b@, pos as int) == FieldScanV::At(p as int)
                && p <= b@.len(),
            FieldScan::Short => scan_opt_string_field(b@, pos as int) is Short,
            FieldScan::Bad => scan_opt_string_field(b@, pos as int) is Bad,
        },
{
    match read_byte(b, pos) {
        Some((0u8, p)) => FieldScan::At(p),
        Some((1u8, p)) => skip_string_field(b, p),
        Some((_, _)) => FieldScan::Bad,
        None => FieldScan::Short,
    }
}

fn skip_opt_bytes_field(b: &[u8], pos: usize) -> (r: FieldScan)
    requires
        pos <= b@.len(),
    ensures
        match r {
            FieldScan::At(p) => scan_opt_bytes_field(b@, pos as int) == FieldScanV::At(p as int)
                && p <= b@.len(),
            FieldScan::Short => scan_opt_bytes_field(b@, pos as int) is Short,
            FieldScan::Bad => scan_opt_bytes_field(b@, pos as int) is Bad,
        },
{
    match read_byte(b, pos) {
        Some((0u8, p)) => FieldScan::At(p),
        Some((1u8, p)) => skip_bytes_field(b, p),
        Some((_, _)) => FieldScan::Bad,
        None => FieldScan::Short,
    }
}

} // verus!
