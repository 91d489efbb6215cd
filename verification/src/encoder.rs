//! Buffered, resumable writer: accepts responses, queues their encoded bytes,
//! and hands them to the transport in pieces of whatever size the transport
//! takes, keeping its place across suspensions.
//!
//! The encoder's well-formedness equation pins the whole history down: the
//! bytes already handed to the writer, followed by the bytes still queued,
//! are exactly the encodings of the responses accepted so far, in order.
//!
//! Failure reports are rendered here too: a handler error becomes an
//! `InvocationError` whose stack trace is populated best-effort by parsing
//! the rendered backtrace text; when the parse fails the trace is simply
//! omitted, never promoted to a connection error.

use vstd::prelude::*;
use vstd::string::StringExecFns;

use crate::codec::{enc_response, enc_responses};
use crate::messages::{InvocationError, Response, ResponseV, StackFrame, StackFrameV};

verus! {

/// The buffered writing half of one connection.
pub struct Encoder {
    /// Encoded bytes not yet taken by the transport.
    pub queue: Vec<u8>,
    /// Every response accepted so far, oldest first.
    pub sent: Ghost<Seq<ResponseV>>,
    /// Every byte already handed to the transport, oldest first.
    pub taken: Ghost<Seq<u8>>,
}

impl Encoder {
    /// The bytes taken and the bytes queued are together exactly the
    /// encodings of the responses accepted, in order.
    pub open spec fn wf(self) -> bool {
        self.taken@ + self.queue@ == enc_responses(self.sent@)
    }

    /// A fresh encoder with nothing queued.
    pub fn new() -> (e: Encoder)
        ensures
            e.wf(),
            e.queue@.len() == 0,
            e.sent@ =~= Seq::<ResponseV>::empty(),
            e.taken@ =~= Seq::<u8>::empty(),
    {
        let e = Encoder { queue: Vec::new(), sent: Ghost(Seq::empty()), taken: Ghost(Seq::empty()) };
        proof {
            assert(e.taken@ + e.queue@ =~= enc_responses(e.sent@));
        }
        e
    }

    /// Accepts one response and queues its encoding. Queuing always succeeds;
    /// the bytes leave later, as the transport takes them.
    pub fn start_send(&mut self, r: &Response)
        requires
            old(self).wf(),
        ensures
            final(self).wf(),
            final(self).sent@ == old(self).sent@ + seq![r@],
            final(self).taken == old(self).taken,
            final(self).queue@ == old(self).queue@ + enc_response(r@),
    {
        let mut encoded = crate::codec::encode_response(r);
        self.queue.append(&mut encoded);
        proof {
            self.sent@ = self.sent@ + seq![r@];
            assert((old(self).sent@ + seq![r@]).drop_last() =~= old(self).sent@);
            assert(self.taken@ + self.queue@ =~= enc_responses(self.sent@));
        }
    }

    /// The bytes the transport should write next.
    pub fn pending(&self) -> (b: &[u8])
        ensures
            b@ == self.queue@,
    {
        self.queue.as_slice()
    }

    /// Records that the transport accepted the first `n` queued bytes.
    pub fn mark_written(&mut self, n: usize)
        requires
            old(self).wf(),
            n <= old(self).queue@.len(),
        ensures
            final(self).wf(),
            final(self).sent == old(self).sent,
            final(self).taken@ == old(self).taken@ + old(self).queue@.take(n as int),
            final(self).queue@ == old(self).queue@.skip(n as int),
    {
        proof {
            self.taken@ = self.taken@ + self.queue@.take(n as int);
        }
        let tail = self.queue.split_off(n);
        self.queue = tail;
        proof {
            assert(self.taken@ + self.queue@ =~= enc_responses(self.sent@));
        }
    }

    /// True when every accepted response has fully left for the transport.
    pub fn is_flushed(&self) -> (r: bool)
        ensures
            r == (self.queue@.len() == 0),
    {
        self.queue.len() == 0
    }
}

// ---------------------------------------------------------------------------
// Invocation-error rendering
// ---------------------------------------------------------------------------

/// One symbol found in a rendered backtrace: source path, line, and name,
/// each only if known.
pub uninterp spec fn parsed_backtrace(text: Seq<char>) -> Option<
    Seq<(Option<Seq<char>>, Option<u32>, Option<Seq<char>>)>,
>;

/// Relies on backtrace_parser::Backtrace::parse: parsing is a function of the
/// text alone, and yields for each symbol of each frame its source path, line
/// number and name, each where resolved. `parsed_backtrace` names that
/// result; a text that does not parse gives `None`.
#[verifier::external_body]
fn parse_backtrace(text: &str) -> (r: Option<Vec<(Option<String>, Option<u32>, Option<String>)>>)
    ensures
        match r {
            Some(symbols) => parsed_backtrace(text@) == Some(symbols.deep_view()),
            None => parsed_backtrace(text@) is None,
        },
{
    let bt = backtrace_parser::Backtrace::parse(text).ok()?;
    let mut symbols = Vec::new();
    for frame in bt.frames() {
        for symbol in frame.symbols() {
            symbols.push((
                symbol.filename().and_then(|p| p.to_str()).map(str::to_owned),
                symbol.lineno(),
                symbol.name().map(str::to_owned),
            ));
        }
    }
    Some(symbols)
}

/// The stack frame that stands for one parsed symbol: an unresolved name is
/// reported as "<unknown>".
pub open spec fn spec_frame_of_symbol(
    s: (Option<Seq<char>>, Option<u32>, Option<Seq<char>>),
) -> StackFrameV {
    StackFrameV {
        path: s.0,
        line: match s.1 {
            Some(n) => Some(n as i32),
            None => None,
        },
        label: match s.2 {
            Some(l) => l,
            None => "<unknown>"@,
        },
    }
}

/// The stack trace drawn from a rendered backtrace: the parsed symbols in
/// order when the text parses, absent when it does not.
pub open spec fn spec_trace_of(text: Seq<char>) -> Option<Seq<StackFrameV>> {
    match parsed_backtrace(text) {
        Some(symbols) => Some(symbols.map_values(|s| spec_frame_of_symbol(s))),
        None => None,
    }
}

fn frames_from_symbols(symbols: Vec<(Option<String>, Option<u32>, Option<String>)>) -> (frames:
    Vec<StackFrame>)
    ensures
        frames.deep_view() == symbols.deep_view().map_values(|s| spec_frame_of_symbol(s)),
{
    let mut frames: Vec<StackFrame> = Vec::new();
    let ghost symbols_view = symbols.deep_view();
    let mut i: usize = 0;
    while i < symbols.len()
        invariant
            i <= symbols.len(),
            symbols_view == symbols.deep_view(),
            symbols_view.len() == symbols.len(),
            frames.deep_view() =~= symbols_view.take(i as int).map_values(
                |s| spec_frame_of_symbol(s),
            ),
        decreases symbols.len() - i,
    {
        let entry = &symbols[i];
        let path: Option<String> = match &entry.0 {
            Some(s) => Some(s.clone()),
            None => None,
        };
        let label = match &entry.2 {
            Some(l) => l.clone(),
            None => String::from_str("<unknown>"),
        };
        let line: Option<i32> = match entry.1 {
            Some(n) => Some(n as i32),
            None => None,
        };
        let frame = StackFrame { path, line, label };
        let ghost old_dv = frames.deep_view();
        proof {
            let sym = symbols@[i as int];
            assert(symbols_view[i as int] == sym.deep_view());
            assert(frame@ == spec_frame_of_symbol(sym.deep_view()));
        }
        frames.push(frame);
        proof {
            assert(frames.deep_view() =~= old_dv.push(frame@));
            assert(old_dv.push(frame@) =~= symbols_view.take(i + 1).map_values(
                |s| spec_frame_of_symbol(s),
            ));
        }
        i = i + 1;
    }
    proof {
        assert(symbols_view.take(symbols.len() as int) =~= symbols_view);
    }
    frames
}

/// Builds the failure report for one invocation from the handler's message
/// and its rendered backtrace. The stack trace is best-effort: text that does
/// not parse as a backtrace yields a report with no trace.
pub fn invocation_error(message: String, backtrace_text: &str) -> (e: InvocationError)
    ensures
        e@.message == message@,
        e@.kind_tag == "Error"@,
        e@.stack_trace == spec_trace_of(backtrace_text@),
        !e@.should_exit,
{
    let stack_trace = match parse_backtrace(backtrace_text) {
        Some(symbols) => Some(frames_from_symbols(symbols)),
        None => None,
    };
    InvocationError {
        message,
        kind_tag: String::from_str("Error"),
        stack_trace,
        should_exit: false,
    }
}

/// Builds the failure report used when the handler's own answer could not be
/// serialized: the response still leaves, carrying this error, and the
/// connection is never aborted for it.
pub fn serialization_error(detail: &str) -> (e: InvocationError)
    ensures
        e@.message == "failed to serialize response: "@ + detail@,
        e@.kind_tag == "Error"@,
        e@.stack_trace is None,
        !e@.should_exit,
{
    let mut message = String::from_str("failed to serialize response: ");
    message.append(detail);
    InvocationError {
        message,
        kind_tag: String::from_str("Error"),
        stack_trace: None,
        should_exit: false,
    }
}

#[verifier::external_type_specification]
#[verifier::external_body]
pub struct ExFailureError(failure::Error);

/// Relies on failure::Error: renders the error's display text and its
/// backtrace's display text. Nothing further is known of an opaque error
/// value.
#[verifier::external_body]
fn render_failure(err: &failure::Error) -> (String, String) {
    (format!("{}", err), format!("{}", err.backtrace()))
}

/// Builds the failure report for a handler error carried as a generic error
/// value: its rendered message, with the stack trace drawn best-effort from
/// its rendered backtrace text.
pub fn invocation_error_of_failure(err: &failure::Error) -> (e: InvocationError)
    ensures
        e@.kind_tag == "Error"@,
        !e@.should_exit,
{
    let rendered = render_failure(err);
    invocation_error(rendered.0, rendered.1.as_str())
}

} // verus!
