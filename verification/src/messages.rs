//! Schema of the two request bodies (Ping, Invoke) and the two response
//! bodies (Ping, Invoke success/failure) of the legacy Lambda invocation
//! protocol, together with their mathematical views.

use vstd::prelude::*;

verus! {

/// Wire name of the liveness-check call.
pub fn service_method_ping() -> (r: &'static str)
    ensures
        r@ == spec_method_ping(),
{
    "Function.Ping"
}

/// Wire name of the invocation call.
pub fn service_method_invoke() -> (r: &'static str)
    ensures
        r@ == spec_method_invoke(),
{
    "Function.Invoke"
}

pub open spec fn spec_method_ping() -> Seq<char> {
    "Function.Ping"@
}

pub open spec fn spec_method_invoke() -> Seq<char> {
    "Function.Invoke"@
}

/// The two method names differ, so a decoded header names at most one of them.
pub proof fn lemma_methods_differ()
    ensures
        spec_method_ping() != spec_method_invoke(),
{
    reveal_strlit("Function.Ping");
    reveal_strlit("Function.Invoke");
    assert(spec_method_ping().len() == 13);
    assert(spec_method_invoke().len() == 15);
}

/// Deadline of one invocation, decoded from the host's timestamp record.
/// Carried into the invocation's context purely as information; this runtime
/// never cancels an overrunning invocation.
#[derive(Clone, Copy, Debug, PartialEq, Eq, Structural)]
pub struct Deadline {
    pub seconds: i64,
    pub nanoseconds: i64,
}

/// One frame of a best-effort stack trace attached to an invocation error.
#[derive(Clone, Debug, PartialEq)]
pub struct StackFrame {
    pub path: Option<String>,
    pub line: Option<i32>,
    pub label: String,
}

/// Mathematical view of a stack frame.
pub struct StackFrameV {
    pub path: Option<Seq<char>>,
    pub line: Option<i32>,
    pub label: Seq<char>,
}

impl View for StackFrame {
    type V = StackFrameV;

    open spec fn view(&self) -> StackFrameV {
        StackFrameV {
            path: match self.path {
                Some(p) => Some(p@),
                None => None,
            },
            line: self.line,
            label: self.label@,
        }
    }
}

impl DeepView for StackFrame {
    type V = StackFrameV;

    open spec fn deep_view(&self) -> StackFrameV {
        self.view()
    }
}

/// Structured failure report for exactly one invocation. It never ends the
/// connection: it is encoded into the response tagged with the failing seq.
#[derive(Clone, Debug, PartialEq)]
pub struct InvocationError {
    pub message: String,
    pub kind_tag: String,
    pub stack_trace: Option<Vec<StackFrame>>,
    pub should_exit: bool,
}

/// Mathematical view of an invocation error.
pub struct InvocationErrorV {
    pub message: Seq<char>,
    pub kind_tag: Seq<char>,
    pub stack_trace: Option<Seq<StackFrameV>>,
    pub should_exit: bool,
}

impl View for InvocationError {
    type V = InvocationErrorV;

    open spec fn view(&self) -> InvocationErrorV {
        InvocationErrorV {
            message: self.message@,
            kind_tag: self.kind_tag@,
            stack_trace: match self.stack_trace {
                Some(frames) => Some(frames.deep_view()),
                None => None,
            },
            should_exit: self.should_exit,
        }
    }
}

/// Body of one Invoke request, exactly as the host frames it on the wire.
#[derive(Clone, Debug, PartialEq)]
pub struct InvokeRequest {
    pub seq: u64,
    pub payload: Vec<u8>,
    pub request_id: String,
    pub x_amzn_trace_id: String,
    pub deadline: Deadline,
    pub invoked_function_arn: String,
    pub cognito_identity_id: Option<String>,
    pub cognito_identity_pool_id: Option<String>,
    pub client_context: Option<Vec<u8>>,
}

/// Mathematical view of an Invoke request.
pub struct InvokeRequestV {
    pub seq: u64,
    pub payload: Seq<u8>,
    pub request_id: Seq<char>,
    pub x_amzn_trace_id: Seq<char>,
    pub deadline: Deadline,
    pub invoked_function_arn: Seq<char>,
    pub cognito_identity_id: Option<Seq<char>>,
    pub cognito_identity_pool_id: Option<Seq<char>>,
    pub client_context: Option<Seq<u8>>,
}

impl View for InvokeRequest {
    type V = InvokeRequestV;

    open spec fn view(&self) -> InvokeRequestV {
        InvokeRequestV {
            seq: self.seq,
            payload: self.payload@,
            request_id: self.request_id@,
            x_amzn_trace_id: self.x_amzn_trace_id@,
            deadline: self.deadline,
            invoked_function_arn: self.invoked_function_arn@,
            cognito_identity_id: match self.cognito_identity_id {
                Some(s) => Some(s@),
                None => None,
            },
            cognito_identity_pool_id: match self.cognito_identity_pool_id {
                Some(s) => Some(s@),
                None => None,
            },
            client_context: match self.client_context {
                Some(b) => Some(b@),
                None => None,
            },
        }
    }
}

/// One call issued by the host: a liveness check or an invocation.
/// `seq` is the correlation id echoed verbatim in the matching response.
#[derive(Clone, Debug, PartialEq)]
pub enum Request {
    Ping(u64),
    Invoke(InvokeRequest),
}

/// Mathematical view of a request.
pub enum RequestV {
    Ping(u64),
    Invoke(InvokeRequestV),
}

impl View for Request {
    type V = RequestV;

    open spec fn view(&self) -> RequestV {
        match self {
            Request::Ping(seq) => RequestV::Ping(*seq),
            Request::Invoke(m) => RequestV::Invoke(m@),
        }
    }
}

impl RequestV {
    /// The correlation id carried by the request.
    pub open spec fn seq_of(self) -> u64 {
        match self {
            RequestV::Ping(seq) => seq,
            RequestV::Invoke(m) => m.seq,
        }
    }
}

/// One answer produced by the runtime, correlated by `seq` alone: the order
/// in which responses leave the connection need not match arrival order.
#[derive(Debug, PartialEq)]
pub enum Response {
    Ping(u64),
    Invoke(u64, Result<Vec<u8>, InvocationError>),
}

/// Mathematical view of a response.
pub enum ResponseV {
    Ping(u64),
    Invoke(u64, Result<Seq<u8>, InvocationErrorV>),
}

impl View for Response {
    type V = ResponseV;

    open spec fn view(&self) -> ResponseV {
        match self {
            Response::Ping(seq) => ResponseV::Ping(*seq),
            Response::Invoke(seq, Ok(payload)) => ResponseV::Invoke(*seq, Ok(payload@)),
            Response::Invoke(seq, Err(e)) => ResponseV::Invoke(*seq, Err(e@)),
        }
    }
}

impl ResponseV {
    /// The correlation id carried by the response.
    pub open spec fn seq_of(self) -> u64 {
        match self {
            ResponseV::Ping(seq) => seq,
            ResponseV::Invoke(seq, _) => seq,
        }
    }

    /// True of responses that answer an Invoke request.
    pub open spec fn is_invoke(self) -> bool {
        self is Invoke
    }
}

} // verus!
