//! Wire codec for the framed RPC messages.
//!
//! Every message is a pair of records: a header naming the service method and
//! the correlation seq, then a method-specific body. Values are framed with a
//! fixed length-first binary layout: `u64` fields are eight bytes
//! little-endian, signed fields travel as their two's-complement bits, byte
//! and character strings are length-prefixed, and optional fields carry a
//! one-byte presence tag. The record encoding is a pluggable collaborator of
//! the protocol, and this layout is the crate's own: fixed and fully
//! specified rather than self-describing with type descriptors; byte-level
//! compatibility with any particular host's encoding is deliberately not a
//! goal. The encoding of every message is pinned down by the `enc_*` spec
//! functions; the `dec_*` spec functions read it back, and the round-trip
//! lemmas prove that decoding an encoding yields the original value exactly.

use vstd::bytes::*;
use vstd::prelude::*;
use vstd::slice::*;
use vstd::string::StringSliceAdditionalSpecFns;
use vstd::string::StrSliceExecFns;
use vstd::utf8::*;

use crate::messages::{
    Deadline, InvocationError, InvocationErrorV, InvokeRequest, InvokeRequestV, Request, RequestV,
    Response, ResponseV, StackFrame, StackFrameV, service_method_invoke, service_method_ping,
    spec_method_invoke, spec_method_ping,
};

verus! {

/// A length must fit the eight-byte count that prefixes it on the wire.
pub open spec fn wf_len(n: nat) -> bool {
    n <= u64::MAX
}

pub open spec fn wf_str(s: Seq<char>) -> bool {
    wf_len(encode_utf8(s).len())
}

pub open spec fn wf_opt_str(o: Option<Seq<char>>) -> bool {
    match o {
        Some(s) => wf_str(s),
        None => true,
    }
}

pub open spec fn wf_frame(f: StackFrameV) -> bool {
    &&& wf_opt_str(f.path)
    &&& wf_str(f.label)
}

pub open spec fn wf_error(e: InvocationErrorV) -> bool {
    &&& wf_str(e.message)
    &&& wf_str(e.kind_tag)
    &&& match e.stack_trace {
        Some(fs) => wf_len(fs.len()) && forall|i: int| 0 <= i < fs.len() ==> wf_frame(#[trigger] fs[i]),
        None => true,
    }
}

pub open spec fn wf_invoke_request(m: InvokeRequestV) -> bool {
    &&& wf_len(m.payload.len())
    &&& wf_str(m.request_id)
    &&& wf_str(m.x_amzn_trace_id)
    &&& wf_str(m.invoked_function_arn)
    &&& wf_opt_str(m.cognito_identity_id)
    &&& wf_opt_str(m.cognito_identity_pool_id)
    &&& match m.client_context {
        Some(b) => wf_len(b.len()),
        None => true,
    }
}

pub open spec fn wf_request(r: RequestV) -> bool {
    match r {
        RequestV::Ping(_) => true,
        RequestV::Invoke(m) => wf_invoke_request(m),
    }
}

pub open spec fn wf_response(r: ResponseV) -> bool {
    match r {
        ResponseV::Ping(_) => true,
        ResponseV::Invoke(_, Ok(p)) => wf_len(p.len()),
        ResponseV::Invoke(_, Err(e)) => wf_error(e),
    }
}

// ---------------------------------------------------------------------------
// Spec encoders
// ---------------------------------------------------------------------------

pub open spec fn enc_u64(x: u64) -> Seq<u8> {
    spec_u64_to_le_bytes(x)
}

pub open spec fn enc_i64(x: i64) -> Seq<u8> {
    enc_u64(x as u64)
}

pub open spec fn enc_i32(x: i32) -> Seq<u8> {
    enc_u64(x as u64)
}

pub open spec fn enc_bool(x: bool) -> Seq<u8> {
    seq![if x { 1u8 } else { 0u8 }]
}

pub open spec fn enc_bytes(b: Seq<u8>) -> Seq<u8> {
    enc_u64(b.len() as u64) + b
}

pub open spec fn enc_str(s: Seq<char>) -> Seq<u8> {
    enc_bytes(encode_utf8(s))
}

pub open spec fn enc_opt_str(o: Option<Seq<char>>) -> Seq<u8> {
    match o {
        None => seq![0u8],
        Some(s) => seq![1u8] + enc_str(s),
    }
}

pub open spec fn enc_opt_bytes(o: Option<Seq<u8>>) -> Seq<u8> {
    match o {
        None => seq![0u8],
        Some(b) => seq![1u8] + enc_bytes(b),
    }
}

pub open spec fn enc_opt_i32(o: Option<i32>) -> Seq<u8> {
    match o {
        None => seq![0u8],
        Some(x) => seq![1u8] + enc_i32(x),
    }
}

pub open spec fn enc_frame(f: StackFrameV) -> Seq<u8> {
    enc_opt_str(f.path) + enc_opt_i32(f.line) + enc_str(f.label)
}

/// Frames are laid out first to last after their count.
pub open spec fn enc_frames_seq(fs: Seq<StackFrameV>) -> Seq<u8>
    decreases fs.len(),
{
    if fs.len() == 0 {
        seq![]
    } else {
        enc_frame(fs[0]) + enc_frames_seq(fs.drop_first())
    }
}

pub open spec fn enc_frames(fs: Seq<StackFrameV>) -> Seq<u8> {
    enc_u64(fs.len() as u64) + enc_frames_seq(fs)
}

pub open spec fn enc_opt_frames(o: Option<Seq<StackFrameV>>) -> Seq<u8> {
    match o {
        None => seq![0u8],
        Some(fs) => seq![1u8] + enc_frames(fs),
    }
}

pub open spec fn enc_error(e: InvocationErrorV) -> Seq<u8> {
    enc_str(e.message) + enc_str(e.kind_tag) + enc_opt_frames(e.stack_trace) + enc_bool(
        e.should_exit,
    )
}

pub open spec fn enc_invoke_body(m: InvokeRequestV) -> Seq<u8> {
    enc_bytes(m.payload) + enc_str(m.request_id) + enc_str(m.x_amzn_trace_id) + enc_i64(
        m.deadline.seconds,
    ) + enc_i64(m.deadline.nanoseconds) + enc_str(m.invoked_function_arn) + enc_opt_str(
        m.cognito_identity_id,
    ) + enc_opt_str(m.cognito_identity_pool_id) + enc_opt_bytes(m.client_context)
}

/// A request is a header (method name and seq) followed by its body; a Ping
/// body is a single empty-record marker.
pub open spec fn enc_request(r: RequestV) -> Seq<u8> {
    match r {
        RequestV::Ping(seq) => enc_str(spec_method_ping()) + enc_u64(seq) + seq![0u8],
        RequestV::Invoke(m) => enc_str(spec_method_invoke()) + enc_u64(m.seq) + enc_invoke_body(m),
    }
}

pub open spec fn enc_invoke_result(res: Result<Seq<u8>, InvocationErrorV>) -> Seq<u8> {
    match res {
        Ok(p) => seq![0u8] + enc_bytes(p),
        Err(e) => seq![1u8] + enc_error(e),
    }
}

/// A response header mirrors the request header and carries an error slot
/// that this runtime leaves empty (a single absent-option tag).
pub open spec fn enc_response(r: ResponseV) -> Seq<u8> {
    match r {
        ResponseV::Ping(seq) => enc_str(spec_method_ping()) + enc_u64(seq) + seq![0u8] + seq![0u8],
        ResponseV::Invoke(seq, res) => enc_str(spec_method_invoke()) + enc_u64(seq) + seq![0u8]
            + enc_invoke_result(res),
    }
}

/// The byte stream that a sequence of responses produces, in order.
pub open spec fn enc_responses(rs: Seq<ResponseV>) -> Seq<u8>
    decreases rs.len(),
{
    if rs.len() == 0 {
        seq![]
    } else {
        enc_responses(rs.drop_last()) + enc_response(rs.last())
    }
}

// ---------------------------------------------------------------------------
// Spec decoders
// ---------------------------------------------------------------------------

pub open spec fn dec_u64_at(b: Seq<u8>, pos: int) -> Option<(u64, int)> {
    if 0 <= pos && pos + 8 <= b.len() {
        Some((spec_u64_from_le_bytes(b.subrange(pos, pos + 8)), pos + 8))
    } else {
        None
    }
}

pub open spec fn dec_i64_at(b: Seq<u8>, pos: int) -> Option<(i64, int)> {
    match dec_u64_at(b, pos) {
        Some((x, p)) => Some((x as i64, p)),
        None => None,
    }
}

pub open spec fn dec_i32_at(b: Seq<u8>, pos: int) -> Option<(i32, int)> {
    match dec_u64_at(b, pos) {
        Some((x, p)) => Some((x as i32, p)),
        None => None,
    }
}

pub open spec fn dec_byte_at(b: Seq<u8>, pos: int) -> Option<(u8, int)> {
    if 0 <= pos && pos + 1 <= b.len() {
        Some((b[pos], pos + 1))
    } else {
        None
    }
}

pub open spec fn dec_bool_at(b: Seq<u8>, pos: int) -> Option<(bool, int)> {
    match dec_byte_at(b, pos) {
        Some((0u8, p)) => Some((false, p)),
        Some((1u8, p)) => Some((true, p)),
        _ => None,
    }
}

pub open spec fn dec_bytes_at(b: Seq<u8>, pos: int) -> Option<(Seq<u8>, int)> {
    match dec_u64_at(b, pos) {
        Some((n, p)) => if p + n <= b.len() {
            Some((b.subrange(p, p + n), p + n))
        } else {
            None
        },
        None => None,
    }
}

pub open spec fn dec_str_at(b: Seq<u8>, pos: int) -> Option<(Seq<char>, int)> {
    match dec_bytes_at(b, pos) {
        Some((raw, p)) => if valid_utf8(raw) {
            Some((decode_utf8(raw), p))
        } else {
            None
        },
        None => None,
    }
}

pub open spec fn dec_opt_str_at(b: Seq<u8>, pos: int) -> Option<(Option<Seq<char>>, int)> {
    match dec_byte_at(b, pos) {
        Some((0u8, p)) => Some((None, p)),
        Some((1u8, p)) => match dec_str_at(b, p) {
            Some((s, p2)) => Some((Some(s), p2)),
            None => None,
        },
        _ => None,
    }
}

pub open spec fn dec_opt_bytes_at(b: Seq<u8>, pos: int) -> Option<(Option<Seq<u8>>, int)> {
    match dec_byte_at(b, pos) {
        Some((0u8, p)) => Some((None, p)),
        Some((1u8, p)) => match dec_bytes_at(b, p) {
            Some((raw, p2)) => Some((Some(raw), p2)),
            None => None,
        },
        _ => None,
    }
}

pub open spec fn dec_opt_i32_at(b: Seq<u8>, pos: int) -> Option<(Option<i32>, int)> {
    match dec_byte_at(b, pos) {
        Some((0u8, p)) => Some((None, p)),
        Some((1u8, p)) => match dec_i32_at(b, p) {
            Some((x, p2)) => Some((Some(x), p2)),
            None => None,
        },
        _ => None,
    }
}

pub open spec fn dec_frame_at(b: Seq<u8>, pos: int) -> Option<(StackFrameV, int)> {
    match dec_opt_str_at(b, pos) {
        Some((path, p1)) => match dec_opt_i32_at(b, p1) {
            Some((line, p2)) => match dec_str_at(b, p2) {
                Some((label, p3)) => Some((StackFrameV { path, line, label }, p3)),
                None => None,
            },
            None => None,
        },
        None => None,
    }
}

pub open spec fn dec_frames_cnt_at(b: Seq<u8>, pos: int, cnt: nat) -> Option<
    (Seq<StackFrameV>, int),
>
    decreases cnt,
{
    if cnt == 0 {
        Some((seq![], pos))
    } else {
        match dec_frame_at(b, pos) {
            Some((f, p)) => match dec_frames_cnt_at(b, p, (cnt - 1) as nat) {
                Some((fs, p2)) => Some((seq![f] + fs, p2)),
                None => None,
            },
            None => None,
        }
    }
}

pub open spec fn dec_frames_at(b: Seq<u8>, pos: int) -> Option<(Seq<StackFrameV>, int)> {
    match dec_u64_at(b, pos) {
        Some((n, p)) => dec_frames_cnt_at(b, p, n as nat),
        None => None,
    }
}

pub open spec fn dec_opt_frames_at(b: Seq<u8>, pos: int) -> Option<
    (Option<Seq<StackFrameV>>, int),
> {
    match dec_byte_at(b, pos) {
        Some((0u8, p)) => Some((None, p)),
        Some((1u8, p)) => match dec_frames_at(b, p) {
            Some((fs, p2)) => Some((Some(fs), p2)),
            None => None,
        },
        _ => None,
    }
}

pub open spec fn dec_error_at(b: Seq<u8>, pos: int) -> Option<(InvocationErrorV, int)> {
    match dec_str_at(b, pos) {
        Some((message, p1)) => match dec_str_at(b, p1) {
            Some((kind_tag, p2)) => match dec_opt_frames_at(b, p2) {
                Some((stack_trace, p3)) => match dec_bool_at(b, p3) {
                    Some((should_exit, p4)) => Some(
                        (InvocationErrorV { message, kind_tag, stack_trace, should_exit }, p4),
                    ),
                    None => None,
                },
                None => None,
            },
            None => None,
        },
        None => None,
    }
}

pub open spec fn dec_invoke_body_at(b: Seq<u8>, pos: int, seq: u64) -> Option<
    (InvokeRequestV, int),
> {
    match dec_bytes_at(b, pos) {
        Some((payload, p1)) => match dec_str_at(b, p1) {
            Some((request_id, p2)) => match dec_str_at(b, p2) {
                Some((x_amzn_trace_id, p3)) => match dec_i64_at(b, p3) {
                    Some((seconds, p4)) => match dec_i64_at(b, p4) {
                        Some((nanoseconds, p5)) => match dec_str_at(b, p5) {
                            Some((invoked_function_arn, p6)) => match dec_opt_str_at(b, p6) {
                                Some((cognito_identity_id, p7)) => match dec_opt_str_at(b, p7) {
                                    Some((cognito_identity_pool_id, p8)) => match dec_opt_bytes_at(
                                        b,
                                        p8,
                                    ) {
                                        Some((client_context, p9)) => Some(
                                            (
                                                InvokeRequestV {
                                                    seq,
                                                    payload,
                                                    request_id,
                                                    x_amzn_trace_id,
                                                    deadline: Deadline { seconds, nanoseconds },
                                                    invoked_function_arn,
                                                    cognito_identity_id,
                                                    cognito_identity_pool_id,
                                                    client_context,
                                                },
                                                p9,
                                            ),
                                        ),
                                        None => None,
                                    },
                                    None => None,
                                },
                                None => None,
                            },
                            None => None,
                        },
                        None => None,
                    },
                    None => None,
                },
                None => None,
            },
            None => None,
        },
        None => None,
    }
}

/// Header of either message kind: the method name and the seq.
pub open spec fn dec_header_at(b: Seq<u8>, pos: int) -> Option<((Seq<char>, u64), int)> {
    match dec_str_at(b, pos) {
        Some((method, p1)) => match dec_u64_at(b, p1) {
            Some((seq, p2)) => Some(((method, seq), p2)),
            None => None,
        },
        None => None,
    }
}

pub open spec fn dec_request_at(b: Seq<u8>, pos: int) -> Option<(RequestV, int)> {
    match dec_header_at(b, pos) {
        Some(((method, seq), p)) => if method == spec_method_ping() {
            match dec_byte_at(b, p) {
                Some((0u8, p2)) => Some((RequestV::Ping(seq), p2)),
                _ => None,
            }
        } else if method == spec_method_invoke() {
            match dec_invoke_body_at(b, p, seq) {
                Some((m, p2)) => Some((RequestV::Invoke(m), p2)),
                None => None,
            }
        } else {
            None
        },
        None => None,
    }
}

pub open spec fn dec_invoke_result_at(b: Seq<u8>, pos: int) -> Option<
    (Result<Seq<u8>, InvocationErrorV>, int),
> {
    match dec_byte_at(b, pos) {
        Some((0u8, p)) => match dec_bytes_at(b, p) {
            Some((payload, p2)) => Some((Ok(payload), p2)),
            None => None,
        },
        Some((1u8, p)) => match dec_error_at(b, p) {
            Some((e, p2)) => Some((Err(e), p2)),
            None => None,
        },
        _ => None,
    }
}

pub open spec fn dec_response_at(b: Seq<u8>, pos: int) -> Option<(ResponseV, int)> {
    match dec_header_at(b, pos) {
        Some(((method, seq), p)) => match dec_byte_at(b, p) {
            Some((0u8, p1)) => if method == spec_method_ping() {
                match dec_byte_at(b, p1) {
                    Some((0u8, p2)) => Some((ResponseV::Ping(seq), p2)),
                    _ => None,
                }
            } else if method == spec_method_invoke() {
                match dec_invoke_result_at(b, p1) {
                    Some((res, p2)) => Some((ResponseV::Invoke(seq, res), p2)),
                    None => None,
                }
            } else {
                None
            },
            _ => None,
        },
        None => None,
    }
}

// ---------------------------------------------------------------------------
// Round-trip proofs: decoding an encoding yields the original value
// ---------------------------------------------------------------------------

/// Splitting a known concatenation inside a larger buffer into its two parts.
proof fn lemma_concat_split(b: Seq<u8>, pos: int, s1: Seq<u8>, s2: Seq<u8>)
    requires
        0 <= pos,
        pos + s1.len() + s2.len() <= b.len(),
        b.subrange(pos, pos + s1.len() + s2.len()) == s1 + s2,
    ensures
        b.subrange(pos, pos + s1.len()) == s1,
        b.subrange(pos + s1.len(), pos + s1.len() + s2.len()) == s2,
{
    let whole = b.subrange(pos, pos + s1.len() + s2.len());
    assert(b.subrange(pos, pos + s1.len()) =~= s1) by {
        assert forall|i: int| 0 <= i < s1.len() implies b.subrange(pos, pos + s1.len())[i]
            == s1[i] by {
            assert(whole[i] == (s1 + s2)[i]);
        }
    }
    assert(b.subrange(pos + s1.len(), pos + s1.len() + s2.len()) =~= s2) by {
        assert forall|i: int| 0 <= i < s2.len() implies b.subrange(
            pos + s1.len(),
            pos + s1.len() + s2.len(),
        )[i] == s2[i] by {
            assert(whole[s1.len() + i] == (s1 + s2)[s1.len() + i]);
        }
    }
}

proof fn lemma_dec_u64(b: Seq<u8>, pos: int, x: u64)
    requires
        0 <= pos,
        pos + 8 <= b.len(),
        b.subrange(pos, pos + 8) == enc_u64(x),
    ensures
        dec_u64_at(b, pos) == Some((x, pos + 8)),
        enc_u64(x).len() == 8,
{
    lemma_auto_spec_u64_to_from_le_bytes();
}

proof fn lemma_enc_u64_len(x: u64)
    ensures
        enc_u64(x).len() == 8,
{
    lemma_auto_spec_u64_to_from_le_bytes();
}

proof fn lemma_dec_i64(b: Seq<u8>, pos: int, x: i64)
    requires
        0 <= pos,
        pos + 8 <= b.len(),
        b.subrange(pos, pos + 8) == enc_i64(x),
    ensures
        dec_i64_at(b, pos) == Some((x, pos + 8)),
{
    lemma_dec_u64(b, pos, x as u64);
    assert((x as u64) as i64 == x) by (bit_vector);
}

proof fn lemma_dec_i32(b: Seq<u8>, pos: int, x: i32)
    requires
        0 <= pos,
        pos + 8 <= b.len(),
        b.subrange(pos, pos + 8) == enc_i32(x),
    ensures
        dec_i32_at(b, pos) == Some((x, pos + 8)),
{
    lemma_dec_u64(b, pos, x as u64);
    assert((x as u64) as i32 == x) by (bit_vector);
}

proof fn lemma_dec_byte(b: Seq<u8>, pos: int, v: u8)
    requires
        0 <= pos,
        pos + 1 <= b.len(),
        b.subrange(pos, pos + 1) == seq![v],
    ensures
        dec_byte_at(b, pos) == Some((v, pos + 1)),
{
    assert(b[pos] == b.subrange(pos, pos + 1)[0]);
}

proof fn lemma_dec_bool(b: Seq<u8>, pos: int, x: bool)
    requires
        0 <= pos,
        pos + 1 <= b.len(),
        b.subrange(pos, pos + 1) == enc_bool(x),
    ensures
        dec_bool_at(b, pos) == Some((x, pos + 1)),
{
    lemma_dec_byte(b, pos, if x { 1u8 } else { 0u8 });
}

proof fn lemma_dec_bytes(b: Seq<u8>, pos: int, data: Seq<u8>)
    requires
        0 <= pos,
        wf_len(data.len()),
        pos + enc_bytes(data).len() <= b.len(),
        b.subrange(pos, pos + enc_bytes(data).len()) == enc_bytes(data),
    ensures
        enc_bytes(data).len() == 8 + data.len(),
        dec_bytes_at(b, pos) == Some((data, pos + 8 + data.len())),
{
    lemma_enc_u64_len(data.len() as u64);
    lemma_concat_split(b, pos, enc_u64(data.len() as u64), data);
    lemma_dec_u64(b, pos, data.len() as u64);
    assert(data.len() as u64 as int == data.len());
}

proof fn lemma_dec_str(b: Seq<u8>, pos: int, s: Seq<char>)
    requires
        0 <= pos,
        wf_str(s),
        pos + enc_str(s).len() <= b.len(),
        b.subrange(pos, pos + enc_str(s).len()) == enc_str(s),
    ensures
        enc_str(s).len() == 8 + encode_utf8(s).len(),
        dec_str_at(b, pos) == Some((s, pos + enc_str(s).len())),
{
    lemma_dec_bytes(b, pos, encode_utf8(s));
    encode_utf8_valid_utf8(s);
    encode_utf8_decode_utf8(s);
}

proof fn lemma_dec_opt_str(b: Seq<u8>, pos: int, o: Option<Seq<char>>)
    requires
        0 <= pos,
        wf_opt_str(o),
        pos + enc_opt_str(o).len() <= b.len(),
        b.subrange(pos, pos + enc_opt_str(o).len()) == enc_opt_str(o),
    ensures
        dec_opt_str_at(b, pos) == Some((o, pos + enc_opt_str(o).len())),
{
    match o {
        None => {
            lemma_dec_byte(b, pos, 0u8);
        },
        Some(s) => {
            lemma_concat_split(b, pos, seq![1u8], enc_str(s));
            lemma_dec_byte(b, pos, 1u8);
            lemma_dec_str(b, pos + 1, s);
        },
    }
}

proof fn lemma_dec_opt_bytes(b: Seq<u8>, pos: int, o: Option<Seq<u8>>)
    requires
        0 <= pos,
        match o {
            Some(data) => wf_len(data.len()),
            None => true,
        },
        pos + enc_opt_bytes(o).len() <= b.len(),
        b.subrange(pos, pos + enc_opt_bytes(o).len()) == enc_opt_bytes(o),
    ensures
        dec_opt_bytes_at(b, pos) == Some((o, pos + enc_opt_bytes(o).len())),
{
    match o {
        None => {
            lemma_dec_byte(b, pos, 0u8);
        },
        Some(data) => {
            lemma_concat_split(b, pos, seq![1u8], enc_bytes(data));
            lemma_dec_byte(b, pos, 1u8);
            lemma_dec_bytes(b, pos + 1, data);
        },
    }
}

proof fn lemma_dec_opt_i32(b: Seq<u8>, pos: int, o: Option<i32>)
    requires
        0 <= pos,
        pos + enc_opt_i32(o).len() <= b.len(),
        b.subrange(pos, pos + enc_opt_i32(o).len()) == enc_opt_i32(o),
    ensures
        dec_opt_i32_at(b, pos) == Some((o, pos + enc_opt_i32(o).len())),
{
    match o {
        None => {
            lemma_dec_byte(b, pos, 0u8);
        },
        Some(x) => {
            lemma_enc_u64_len(x as u64);
            lemma_concat_split(b, pos, seq![1u8], enc_i32(x));
            lemma_dec_byte(b, pos, 1u8);
            lemma_dec_i32(b, pos + 1, x);
        },
    }
}

proof fn lemma_dec_frame(b: Seq<u8>, pos: int, f: StackFrameV)
    requires
        0 <= pos,
        wf_frame(f),
        pos + enc_frame(f).len() <= b.len(),
        b.subrange(pos, pos + enc_frame(f).len()) == enc_frame(f),
    ensures
        dec_frame_at(b, pos) == Some((f, pos + enc_frame(f).len())),
{
    let e1 = enc_opt_str(f.path);
    let e2 = enc_opt_i32(f.line);
    let e3 = enc_str(f.label);
    assert(enc_frame(f) == e1 + (e2 + e3));
    lemma_concat_split(b, pos, e1, e2 + e3);
    lemma_concat_split(b, pos + e1.len(), e2, e3);
    lemma_dec_opt_str(b, pos, f.path);
    lemma_dec_opt_i32(b, pos + e1.len(), f.line);
    lemma_dec_str(b, pos + e1.len() + e2.len(), f.label);
}

proof fn lemma_dec_frames_seq(b: Seq<u8>, pos: int, fs: Seq<StackFrameV>)
    requires
        0 <= pos,
        forall|i: int| 0 <= i < fs.len() ==> wf_frame(#[trigger] fs[i]),
        pos + enc_frames_seq(fs).len() <= b.len(),
        b.subrange(pos, pos + enc_frames_seq(fs).len()) == enc_frames_seq(fs),
    ensures
        dec_frames_cnt_at(b, pos, fs.len()) == Some((fs, pos + enc_frames_seq(fs).len())),
    decreases fs.len(),
{
    if fs.len() == 0 {
        assert(dec_frames_cnt_at(b, pos, 0) == Some((Seq::<StackFrameV>::empty(), pos)));
        assert(fs =~= Seq::<StackFrameV>::empty());
    } else {
        let head = enc_frame(fs[0]);
        let rest = enc_frames_seq(fs.drop_first());
        assert(enc_frames_seq(fs) == head + rest);
        lemma_concat_split(b, pos, head, rest);
        lemma_dec_frame(b, pos, fs[0]);
        assert(forall|i: int|
            0 <= i < fs.drop_first().len() ==> wf_frame(#[trigger] fs.drop_first()[i]));
        lemma_dec_frames_seq(b, pos + head.len(), fs.drop_first());
        assert(seq![fs[0]] + fs.drop_first() =~= fs);
    }
}

proof fn lemma_dec_opt_frames(b: Seq<u8>, pos: int, o: Option<Seq<StackFrameV>>)
    requires
        0 <= pos,
        match o {
            Some(fs) => wf_len(fs.len()) && forall|i: int|
                0 <= i < fs.len() ==> wf_frame(#[trigger] fs[i]),
            None => true,
        },
        pos + enc_opt_frames(o).len() <= b.len(),
        b.subrange(pos, pos + enc_opt_frames(o).len()) == enc_opt_frames(o),
    ensures
        dec_opt_frames_at(b, pos) == Some((o, pos + enc_opt_frames(o).len())),
{
    match o {
        None => {
            lemma_dec_byte(b, pos, 0u8);
        },
        Some(fs) => {
            lemma_enc_u64_len(fs.len() as u64);
            lemma_concat_split(b, pos, seq![1u8], enc_frames(fs));
            lemma_dec_byte(b, pos, 1u8);
            lemma_concat_split(b, pos + 1, enc_u64(fs.len() as u64), enc_frames_seq(fs));
            lemma_dec_u64(b, pos + 1, fs.len() as u64);
            lemma_dec_frames_seq(b, pos + 9, fs);
            assert(fs.len() as u64 as nat == fs.len());
        },
    }
}

proof fn lemma_dec_error(b: Seq<u8>, pos: int, e: InvocationErrorV)
    requires
        0 <= pos,
        wf_error(e),
        pos + enc_error(e).len() <= b.len(),
        b.subrange(pos, pos + enc_error(e).len()) == enc_error(e),
    ensures
        dec_error_at(b, pos) == Some((e, pos + enc_error(e).len())),
{
    let e1 = enc_str(e.message);
    let e2 = enc_str(e.kind_tag);
    let e3 = enc_opt_frames(e.stack_trace);
    let e4 = enc_bool(e.should_exit);
    assert(enc_error(e) == e1 + (e2 + (e3 + e4)));
    lemma_concat_split(b, pos, e1, e2 + (e3 + e4));
    lemma_concat_split(b, pos + e1.len(), e2, e3 + e4);
    lemma_concat_split(b, pos + e1.len() + e2.len(), e3, e4);
    lemma_dec_str(b, pos, e.message);
    lemma_dec_str(b, pos + e1.len(), e.kind_tag);
    lemma_dec_opt_frames(b, pos + e1.len() + e2.len(), e.stack_trace);
    lemma_dec_bool(b, pos + e1.len() + e2.len() + e3.len(), e.should_exit);
}

#[verifier::rlimit(60)]
proof fn lemma_dec_invoke_body(b: Seq<u8>, pos: int, m: InvokeRequestV)
    requires
        0 <= pos,
        wf_invoke_request(m),
        pos + enc_invoke_body(m).len() <= b.len(),
        b.subrange(pos, pos + enc_invoke_body(m).len()) == enc_invoke_body(m),
    ensures
        dec_invoke_body_at(b, pos, m.seq) == Some((m, pos + enc_invoke_body(m).len())),
{
    let e1 = enc_bytes(m.payload);
    let e2 = enc_str(m.request_id);
    let e3 = enc_str(m.x_amzn_trace_id);
    let e4 = enc_i64(m.deadline.seconds);
    let e5 = enc_i64(m.deadline.nanoseconds);
    let e6 = enc_str(m.invoked_function_arn);
    let e7 = enc_opt_str(m.cognito_identity_id);
    let e8 = enc_opt_str(m.cognito_identity_pool_id);
    let e9 = enc_opt_bytes(m.client_context);
    assert(enc_invoke_body(m) == e1 + (e2 + (e3 + (e4 + (e5 + (e6 + (e7 + (e8 + e9))))))));
    let p1 = pos + e1.len();
    let p2 = p1 + e2.len();
    let p3 = p2 + e3.len();
    let p4 = p3 + e4.len();
    let p5 = p4 + e5.len();
    let p6 = p5 + e6.len();
    let p7 = p6 + e7.len();
    let p8 = p7 + e8.len();
    lemma_concat_split(b, pos, e1, e2 + (e3 + (e4 + (e5 + (e6 + (e7 + (e8 + e9)))))));
    lemma_concat_split(b, p1, e2, e3 + (e4 + (e5 + (e6 + (e7 + (e8 + e9))))));
    lemma_concat_split(b, p2, e3, e4 + (e5 + (e6 + (e7 + (e8 + e9)))));
    lemma_concat_split(b, p3, e4, e5 + (e6 + (e7 + (e8 + e9))));
    lemma_concat_split(b, p4, e5, e6 + (e7 + (e8 + e9)));
    lemma_concat_split(b, p5, e6, e7 + (e8 + e9));
    lemma_concat_split(b, p6, e7, e8 + e9);
    lemma_concat_split(b, p7, e8, e9);
    lemma_enc_u64_len(m.deadline.seconds as u64);
    lemma_enc_u64_len(m.deadline.nanoseconds as u64);
    lemma_dec_bytes(b, pos, m.payload);
    lemma_dec_str(b, p1, m.request_id);
    lemma_dec_str(b, p2, m.x_amzn_trace_id);
    lemma_dec_i64(b, p3, m.deadline.seconds);
    lemma_dec_i64(b, p4, m.deadline.nanoseconds);
    lemma_dec_str(b, p5, m.invoked_function_arn);
    lemma_dec_opt_str(b, p6, m.cognito_identity_id);
    lemma_dec_opt_str(b, p7, m.cognito_identity_pool_id);
    lemma_dec_opt_bytes(b, p8, m.client_context);
}

/// A well-formed request decodes from its own encoding, whatever follows it
/// in the buffer.
pub proof fn lemma_request_round_trip(b: Seq<u8>, pos: int, r: RequestV)
    requires
        0 <= pos,
        wf_request(r),
        pos + enc_request(r).len() <= b.len(),
        b.subrange(pos, pos + enc_request(r).len()) == enc_request(r),
    ensures
        dec_request_at(b, pos) == Some((r, pos + enc_request(r).len())),
{
    crate::messages::lemma_methods_differ();
    match r {
        RequestV::Ping(seq) => {
            let e1 = enc_str(spec_method_ping());
            let e2 = enc_u64(seq);
            lemma_enc_u64_len(seq);
            assert(enc_request(r) == e1 + (e2 + seq![0u8]));
            lemma_concat_split(b, pos, e1, e2 + seq![0u8]);
            lemma_concat_split(b, pos + e1.len(), e2, seq![0u8]);
            str_wf_ping();
            lemma_dec_str(b, pos, spec_method_ping());
            lemma_dec_u64(b, pos + e1.len(), seq);
            lemma_dec_byte(b, pos + e1.len() + 8, 0u8);
        },
        RequestV::Invoke(m) => {
            let e1 = enc_str(spec_method_invoke());
            let e2 = enc_u64(m.seq);
            let e3 = enc_invoke_body(m);
            lemma_enc_u64_len(m.seq);
            assert(enc_request(r) == e1 + (e2 + e3));
            lemma_concat_split(b, pos, e1, e2 + e3);
            lemma_concat_split(b, pos + e1.len(), e2, e3);
            str_wf_invoke();
            lemma_dec_str(b, pos, spec_method_invoke());
            lemma_dec_u64(b, pos + e1.len(), m.seq);
            lemma_dec_invoke_body(b, pos + e1.len() + 8, m);
        },
    }
}

/// A well-formed response decodes from its own encoding, whatever follows it
/// in the buffer.
pub proof fn lemma_response_round_trip(b: Seq<u8>, pos: int, r: ResponseV)
    requires
        0 <= pos,
        wf_response(r),
        pos + enc_response(r).len() <= b.len(),
        b.subrange(pos, pos + enc_response(r).len()) == enc_response(r),
    ensures
        dec_response_at(b, pos) == Some((r, pos + enc_response(r).len())),
{
    crate::messages::lemma_methods_differ();
    match r {
        ResponseV::Ping(seq) => {
            let e1 = enc_str(spec_method_ping());
            let e2 = enc_u64(seq);
            lemma_enc_u64_len(seq);
            assert(enc_response(r) == e1 + (e2 + (seq![0u8] + seq![0u8])));
            lemma_concat_split(b, pos, e1, e2 + (seq![0u8] + seq![0u8]));
            lemma_concat_split(b, pos + e1.len(), e2, seq![0u8] + seq![0u8]);
            lemma_concat_split(b, pos + e1.len() + 8, seq![0u8], seq![0u8]);
            str_wf_ping();
            lemma_dec_str(b, pos, spec_method_ping());
            lemma_dec_u64(b, pos + e1.len(), seq);
            lemma_dec_byte(b, pos + e1.len() + 8, 0u8);
            lemma_dec_byte(b, pos + e1.len() + 9, 0u8);
        },
        ResponseV::Invoke(seq, res) => {
            let e1 = enc_str(spec_method_invoke());
            let e2 = enc_u64(seq);
            let e4 = enc_invoke_result(res);
            lemma_enc_u64_len(seq);
            assert(enc_response(r) == e1 + (e2 + (seq![0u8] + e4)));
            lemma_concat_split(b, pos, e1, e2 + (seq![0u8] + e4));
            lemma_concat_split(b, pos + e1.len(), e2, seq![0u8] + e4);
            lemma_concat_split(b, pos + e1.len() + 8, seq![0u8], e4);
            str_wf_invoke();
            lemma_dec_str(b, pos, spec_method_invoke());
            lemma_dec_u64(b, pos + e1.len(), seq);
            lemma_dec_byte(b, pos + e1.len() + 8, 0u8);
            let p = pos + e1.len() + 9;
            match res {
                Ok(payload) => {
                    lemma_concat_split(b, p, seq![0u8], enc_bytes(payload));
                    lemma_dec_byte(b, p, 0u8);
                    lemma_dec_bytes(b, p + 1, payload);
                },
                Err(e) => {
                    lemma_concat_split(b, p, seq![1u8], enc_error(e));
                    lemma_dec_byte(b, p, 1u8);
                    lemma_dec_error(b, p + 1, e);
                },
            }
        },
    }
}

// ---------------------------------------------------------------------------
// Executable encoding
// ---------------------------------------------------------------------------

/// Concatenation distributes over the frame-list encoding.
proof fn lemma_enc_frames_concat(s1: Seq<StackFrameV>, s2: Seq<StackFrameV>)
    ensures
        enc_frames_seq(s1 + s2) == enc_frames_seq(s1) + enc_frames_seq(s2),
    decreases s1.len(),
{
    if s1.len() == 0 {
        assert(s1 + s2 =~= s2);
        assert(enc_frames_seq(s1) + enc_frames_seq(s2) =~= enc_frames_seq(s2));
    } else {
        assert((s1 + s2).drop_first() =~= s1.drop_first() + s2);
        lemma_enc_frames_concat(s1.drop_first(), s2);
        assert(enc_frame((s1 + s2)[0]) + (enc_frames_seq(s1.drop_first()) + enc_frames_seq(s2))
            =~= (enc_frame(s1[0]) + enc_frames_seq(s1.drop_first())) + enc_frames_seq(s2));
    }
}

fn write_u64(out: &mut Vec<u8>, x: u64)
    ensures
        final(out)@ == old(out)@ + enc_u64(x),
{
    let mut bytes = u64_to_le_bytes(x);
    out.append(&mut bytes);
}

fn write_i64(out: &mut Vec<u8>, x: i64)
    ensures
        final(out)@ == old(out)@ + enc_i64(x),
{
    write_u64(out, x as u64);
}

fn write_i32(out: &mut Vec<u8>, x: i32)
    ensures
        final(out)@ == old(out)@ + enc_i32(x),
{
    write_u64(out, x as u64);
}

fn write_bool(out: &mut Vec<u8>, x: bool)
    ensures
        final(out)@ == old(out)@ + enc_bool(x),
{
    out.push(if x { 1u8 } else { 0u8 });
    assert(out@ =~= old(out)@ + enc_bool(x));
}

fn write_bytes(out: &mut Vec<u8>, b: &[u8])
    ensures
        final(out)@ == old(out)@ + enc_bytes(b@),
{
    write_u64(out, b.len() as u64);
    out.extend_from_slice(b);
    assert(out@ =~= old(out)@ + enc_bytes(b@));
}

fn write_str(out: &mut Vec<u8>, s: &str)
    ensures
        final(out)@ == old(out)@ + enc_str(s@),
{
    write_bytes(out, s.as_bytes());
}

fn write_opt_str(out: &mut Vec<u8>, o: &Option<String>)
    ensures
        final(out)@ == old(out)@ + enc_opt_str(match o {
            Some(s) => Some(s@),
            None => None,
        }),
{
    match o {
        None => {
            out.push(0u8);
            assert(out@ =~= old(out)@ + seq![0u8]);
        },
        Some(s) => {
            out.push(1u8);
            write_str(out, s.as_str());
            assert(out@ =~= old(out)@ + (seq![1u8] + enc_str(s@)));
        },
    }
}

fn write_opt_bytes(out: &mut Vec<u8>, o: &Option<Vec<u8>>)
    ensures
        final(out)@ == old(out)@ + enc_opt_bytes(match o {
            Some(b) => Some(b@),
            None => None,
        }),
{
    match o {
        None => {
            out.push(0u8);
            assert(out@ =~= old(out)@ + seq![0u8]);
        },
        Some(b) => {
            out.push(1u8);
            write_bytes(out, b.as_slice());
            assert(out@ =~= old(out)@ + (seq![1u8] + enc_bytes(b@)));
        },
    }
}

fn write_opt_i32(out: &mut Vec<u8>, o: &Option<i32>)
    ensures
        final(out)@ == old(out)@ + enc_opt_i32(*o),
{
    match o {
        None => {
            out.push(0u8);
            assert(out@ =~= old(out)@ + seq![0u8]);
        },
        Some(x) => {
            out.push(1u8);
            write_i32(out, *x);
            assert(out@ =~= old(out)@ + (seq![1u8] + enc_i32(*x)));
        },
    }
}

fn write_frame(out: &mut Vec<u8>, f: &StackFrame)
    ensures
        final(out)@ == old(out)@ + enc_frame(f@),
{
    write_opt_str(out, &f.path);
    write_opt_i32(out, &f.line);
    write_str(out, f.label.as_str());
    assert(out@ =~= old(out)@ + enc_frame(f@));
}

fn write_frames(out: &mut Vec<u8>, fs: &Vec<StackFrame>)
    ensures
        final(out)@ == old(out)@ + enc_frames(fs.deep_view()),
{
    write_u64(out, fs.len() as u64);
    let ghost base = out@;
    let ghost view = fs.deep_view();
    let mut i: usize = 0;
    assert(enc_frames_seq(view.take(0)) =~= Seq::<u8>::empty());
    assert(out@ =~= base + enc_frames_seq(view.take(0)));
    while i < fs.len()
        invariant
            i <= fs.len(),
            view == fs.deep_view(),
            out@ == base + enc_frames_seq(view.take(i as int)),
        decreases fs.len() - i,
    {
        write_frame(out, &fs[i]);
        proof {
            assert(view.take(i as int) + seq![view[i as int]] =~= view.take(i + 1));
            lemma_enc_frames_concat(view.take(i as int), seq![view[i as int]]);
            assert(seq![view[i as int]].drop_first().len() == 0);
            assert(enc_frames_seq(seq![view[i as int]].drop_first()) =~= Seq::<u8>::empty());
            assert(enc_frames_seq(seq![view[i as int]]) =~= enc_frame(view[i as int]));
        }
        i = i + 1;
    }
    assert(view.take(fs.len() as int) =~= view);
    assert(out@ =~= old(out)@ + enc_frames(view));
}

fn write_error(out: &mut Vec<u8>, e: &InvocationError)
    ensures
        final(out)@ == old(out)@ + enc_error(e@),
{
    write_str(out, e.message.as_str());
    write_str(out, e.kind_tag.as_str());
    match &e.stack_trace {
        None => {
            out.push(0u8);
        },
        Some(fs) => {
            out.push(1u8);
            write_frames(out, fs);
        },
    }
    write_bool(out, e.should_exit);
    assert(out@ =~= old(out)@ + enc_error(e@));
}

#[verifier::rlimit(60)]
fn write_invoke_body(out: &mut Vec<u8>, m: &InvokeRequest)
    ensures
        final(out)@ == old(out)@ + enc_invoke_body(m@),
{
    write_bytes(out, m.payload.as_slice());
    write_str(out, m.request_id.as_str());
    write_str(out, m.x_amzn_trace_id.as_str());
    write_i64(out, m.deadline.seconds);
    write_i64(out, m.deadline.nanoseconds);
    write_str(out, m.invoked_function_arn.as_str());
    write_opt_str(out, &m.cognito_identity_id);
    write_opt_str(out, &m.cognito_identity_pool_id);
    write_opt_bytes(out, &m.client_context);
    assert(out@ =~= old(out)@ + enc_invoke_body(m@));
}

/// Encodes one request as its two wire records.
pub fn encode_request(r: &Request) -> (out: Vec<u8>)
    ensures
        out@ == enc_request(r@),
{
    let mut out: Vec<u8> = Vec::new();
    match r {
        Request::Ping(seq) => {
            write_str(&mut out, service_method_ping());
            write_u64(&mut out, *seq);
            out.push(0u8);
            assert(out@ =~= enc_request(r@));
        },
        Request::Invoke(m) => {
            write_str(&mut out, service_method_invoke());
            write_u64(&mut out, m.seq);
            write_invoke_body(&mut out, m);
            assert(out@ =~= enc_request(r@));
        },
    }
    out
}

/// Encodes one response as its two wire records; the header's error slot is
/// always left empty.
pub fn encode_response(r: &Response) -> (out: Vec<u8>)
    ensures
        out@ == enc_response(r@),
{
    let mut out: Vec<u8> = Vec::new();
    match r {
        Response::Ping(seq) => {
            write_str(&mut out, service_method_ping());
            write_u64(&mut out, *seq);
            out.push(0u8);
            out.push(0u8);
            assert(out@ =~= enc_response(r@));
        },
        Response::Invoke(seq, res) => {
            write_str(&mut out, service_method_invoke());
            write_u64(&mut out, *seq);
            out.push(0u8);
            match res {
                Ok(payload) => {
                    out.push(0u8);
                    write_bytes(&mut out, payload.as_slice());
                },
                Err(e) => {
                    out.push(1u8);
                    write_error(&mut out, e);
                },
            }
            assert(out@ =~= enc_response(r@));
        },
    }
    out
}

// ---------------------------------------------------------------------------
// Executable decoding
// ---------------------------------------------------------------------------

/// Byte-for-byte comparison of two slices.
fn bytes_eq(a: &[u8], b: &[u8]) -> (r: bool)
    ensures
        r == (a@ == b@),
{
    if a.len() != b.len() {
        assert(a@ != b@) by {
            assert(a@.len() != b@.len());
        }
        return false;
    }
    let mut i: usize = 0;
    while i < a.len()
        invariant
            i <= a.len(),
            a@.len() == b@.len(),
            forall|j: int| 0 <= j < i ==> a@[j] == b@[j],
        decreases a.len() - i,
    {
        if *slice_index_get(a, i) != *slice_index_get(b, i) {
            return false;
        }
        i = i + 1;
    }
    assert(a@ =~= b@);
    true
}

/// Character-for-character comparison of two text slices, through their
/// UTF-8 encodings, which agree exactly when the character sequences do.
pub(crate) fn str_eq(a: &str, b: &str) -> (r: bool)
    ensures
        r == (a@ == b@),
{
    let r = bytes_eq(a.as_bytes(), b.as_bytes());
    proof {
        if a.spec_bytes() == b.spec_bytes() {
            encode_utf8_decode_utf8(a@);
            encode_utf8_decode_utf8(b@);
            assert(a@ == b@);
        }
    }
    r
}

/// Relies on String::from_utf8: it succeeds exactly on valid UTF-8 input and
/// returns the character sequence that the bytes encode.
#[verifier::external_body]
pub(crate) fn string_from_utf8(bytes: Vec<u8>) -> (r: Option<String>)
    ensures
        r is Some <==> valid_utf8(bytes@),
        r matches Some(s) ==> s@ == decode_utf8(bytes@),
{
    String::from_utf8(bytes).ok()
}

pub(crate) fn read_u64(b: &[u8], pos: usize) -> (r: Option<(u64, usize)>)
    ensures
        match r {
            Some((x, p)) => dec_u64_at(b@, pos as int) == Some((x, p as int)),
            None => dec_u64_at(b@, pos as int) is None,
        },
{
    if pos < b.len() && b.len() - pos >= 8 {
        let raw = slice_subrange(b, pos, pos + 8);
        let x = u64_from_le_bytes(raw);
        Some((x, pos + 8))
    } else {
        None
    }
}

fn read_i64(b: &[u8], pos: usize) -> (r: Option<(i64, usize)>)
    ensures
        match r {
            Some((x, p)) => dec_i64_at(b@, pos as int) == Some((x, p as int)),
            None => dec_i64_at(b@, pos as int) is None,
        },
{
    match read_u64(b, pos) {
        Some((x, p)) => Some((x as i64, p)),
        None => None,
    }
}

fn read_i32(b: &[u8], pos: usize) -> (r: Option<(i32, usize)>)
    ensures
        match r {
            Some((x, p)) => dec_i32_at(b@, pos as int) == Some((x, p as int)),
            None => dec_i32_at(b@, pos as int) is None,
        },
{
    match read_u64(b, pos) {
        Some((x, p)) => Some((x as i32, p)),
        None => None,
    }
}

pub(crate) fn read_byte(b: &[u8], pos: usize) -> (r: Option<(u8, usize)>)
    ensures
        match r {
            Some((x, p)) => dec_byte_at(b@, pos as int) == Some((x, p as int)),
            None => dec_byte_at(b@, pos as int) is None,
        },
{
    if pos < b.len() {
        Some((*slice_index_get(b, pos), pos + 1))
    } else {
        None
    }
}

fn read_bool(b: &[u8], pos: usize) -> (r: Option<(bool, usize)>)
    ensures
        match r {
            Some((x, p)) => dec_bool_at(b@, pos as int) == Some((x, p as int)),
            None => dec_bool_at(b@, pos as int) is None,
        },
{
    match read_byte(b, pos) {
        Some((0u8, p)) => Some((false, p)),
        Some((1u8, p)) => Some((true, p)),
        _ => None,
    }
}

pub(crate) fn read_bytes(b: &[u8], pos: usize) -> (r: Option<(Vec<u8>, usize)>)
    ensures
        match r {
            Some((data, p)) => dec_bytes_at(b@, pos as int) == Some((data@, p as int)),
            None => dec_bytes_at(b@, pos as int) is None,
        },
{
    match read_u64(b, pos) {
        Some((n, p)) => {
            let blen = b.len();
            if n <= (usize::MAX - p) as u64 && p + (n as usize) <= blen {
                let end = p + (n as usize);
                let data = slice_to_vec(slice_subrange(b, p, end));
                Some((data, end))
            } else {
                proof {
                    if n <= (usize::MAX - p) as u64 {
                        assert(p + n > b@.len());
                    } else {
                        assert(p + n > usize::MAX);
                        assert(b@.len() <= usize::MAX);
                    }
                }
                None
            }
        },
        None => None,
    }
}

fn read_string(b: &[u8], pos: usize) -> (r: Option<(String, usize)>)
    ensures
        match r {
            Some((s, p)) => dec_str_at(b@, pos as int) == Some((s@, p as int)),
            None => dec_str_at(b@, pos as int) is None,
        },
{
    match read_bytes(b, pos) {
        Some((raw, p)) => {
            let ghost raw_view = raw@;
            match string_from_utf8(raw) {
                Some(s) => Some((s, p)),
                None => None,
            }
        },
        None => None,
    }
}

fn read_opt_string(b: &[u8], pos: usize) -> (r: Option<(Option<String>, usize)>)
    ensures
        match r {
            Some((o, p)) => dec_opt_str_at(b@, pos as int) == Some(
                (
                    match o {
                        Some(s) => Some(s@),
                        None => None,
                    },
                    p as int,
                ),
            ),
            None => dec_opt_str_at(b@, pos as int) is None,
        },
{
    match read_byte(b, pos) {
        Some((0u8, p)) => Some((None, p)),
        Some((1u8, p)) => match read_string(b, p) {
            Some((s, p2)) => Some((Some(s), p2)),
            None => None,
        },
        _ => None,
    }
}

fn read_opt_bytes(b: &[u8], pos: usize) -> (r: Option<(Option<Vec<u8>>, usize)>)
    ensures
        match r {
            Some((o, p)) => dec_opt_bytes_at(b@, pos as int) == Some(
                (
                    match o {
                        Some(data) => Some(data@),
                        None => None,
                    },
                    p as int,
                ),
            ),
            None => dec_opt_bytes_at(b@, pos as int) is None,
        },
{
    match read_byte(b, pos) {
        Some((0u8, p)) => Some((None, p)),
        Some((1u8, p)) => match read_bytes(b, p) {
            Some((data, p2)) => Some((Some(data), p2)),
            None => None,
        },
        _ => None,
    }
}

fn read_opt_i32(b: &[u8], pos: usize) -> (r: Option<(Option<i32>, usize)>)
    ensures
        match r {
            Some((o, p)) => dec_opt_i32_at(b@, pos as int) == Some((o, p as int)),
            None => dec_opt_i32_at(b@, pos as int) is None,
        },
{
    match read_byte(b, pos) {
        Some((0u8, p)) => Some((None, p)),
        Some((1u8, p)) => match read_i32(b, p) {
            Some((x, p2)) => Some((Some(x), p2)),
            None => None,
        },
        _ => None,
    }
}

fn read_frame(b: &[u8], pos: usize) -> (r: Option<(StackFrame, usize)>)
    ensures
        match r {
            Some((f, p)) => dec_frame_at(b@, pos as int) == Some((f@, p as int)),
            None => dec_frame_at(b@, pos as int) is None,
        },
{
    match read_opt_string(b, pos) {
        Some((path, p1)) => match read_opt_i32(b, p1) {
            Some((line, p2)) => match read_string(b, p2) {
                Some((label, p3)) => Some((StackFrame { path, line, label }, p3)),
                None => None,
            },
            None => None,
        },
        None => None,
    }
}

fn read_frames(b: &[u8], pos: usize) -> (r: Option<(Vec<StackFrame>, usize)>)
    ensures
        match r {
            Some((fs, p)) => dec_frames_at(b@, pos as int) == Some((fs.deep_view(), p as int)),
            None => dec_frames_at(b@, pos as int) is None,
        },
{
    match read_u64(b, pos) {
        Some((n, p0)) => {
            let mut fs: Vec<StackFrame> = Vec::new();
            let mut cur: usize = p0;
            let mut remaining: u64 = n;
            proof {
                assert(fs.deep_view() =~= Seq::<StackFrameV>::empty());
                if let Some((tail, pend)) = dec_frames_cnt_at(b@, p0 as int, n as nat) {
                    assert(fs.deep_view() + tail =~= tail);
                }
            }
            loop
                invariant
                    remaining <= n,
                    dec_u64_at(b@, pos as int) == Some((n, p0 as int)),
                    dec_frames_cnt_at(b@, p0 as int, n as nat) == match dec_frames_cnt_at(
                        b@,
                        cur as int,
                        remaining as nat,
                    ) {
                        Some((tail, p)) => Some((fs.deep_view() + tail, p)),
                        None => None::<(Seq<StackFrameV>, int)>,
                    },
                decreases remaining,
            {
                if remaining == 0 {
                    assert(fs.deep_view() + Seq::<StackFrameV>::empty() =~= fs.deep_view());
                    return Some((fs, cur));
                }
                match read_frame(b, cur) {
                    Some((f, p2)) => {
                        let ghost old_fs = fs.deep_view();
                        let ghost old_rem = remaining as nat;
                        fs.push(f);
                        proof {
                            assert(fs.deep_view() =~= old_fs + seq![f@]);
                            if let Some((tail, pend)) = dec_frames_cnt_at(
                                b@,
                                p2 as int,
                                (old_rem - 1) as nat,
                            ) {
                                assert(old_fs + (seq![f@] + tail) =~= fs.deep_view() + tail);
                            }
                        }
                        cur = p2;
                        remaining = remaining - 1;
                    },
                    None => {
                        return None;
                    },
                }
            }
        },
        None => None,
    }
}

fn read_opt_frames(b: &[u8], pos: usize) -> (r: Option<(Option<Vec<StackFrame>>, usize)>)
    ensures
        match r {
            Some((o, p)) => dec_opt_frames_at(b@, pos as int) == Some(
                (
                    match o {
                        Some(fs) => Some(fs.deep_view()),
                        None => None,
                    },
                    p as int,
                ),
            ),
            None => dec_opt_frames_at(b@, pos as int) is None,
        },
{
    match read_byte(b, pos) {
        Some((0u8, p)) => Some((None, p)),
        Some((1u8, p)) => match read_frames(b, p) {
            Some((fs, p2)) => Some((Some(fs), p2)),
            None => None,
        },
        _ => None,
    }
}

fn read_error(b: &[u8], pos: usize) -> (r: Option<(InvocationError, usize)>)
    ensures
        match r {
            Some((e, p)) => dec_error_at(b@, pos as int) == Some((e@, p as int)),
            None => dec_error_at(b@, pos as int) is None,
        },
{
    match read_string(b, pos) {
        Some((message, p1)) => match read_string(b, p1) {
            Some((kind_tag, p2)) => match read_opt_frames(b, p2) {
                Some((stack_trace, p3)) => match read_bool(b, p3) {
                    Some((should_exit, p4)) => Some(
                        (InvocationError { message, kind_tag, stack_trace, should_exit }, p4),
                    ),
                    None => None,
                },
                None => None,
            },
            None => None,
        },
        None => None,
    }
}

pub(crate) fn read_invoke_body(b: &[u8], pos: usize, seq: u64) -> (r: Option<(InvokeRequest, usize)>)
    ensures
        match r {
            Some((m, p)) => dec_invoke_body_at(b@, pos as int, seq) == Some((m@, p as int))
                && m.seq == seq,
            None => dec_invoke_body_at(b@, pos as int, seq) is None,
        },
{
    let (payload, p1) = match read_bytes(b, pos) {
        Some(v) => v,
        None => {
            return None;
        },
    };
    let (request_id, p2) = match read_string(b, p1) {
        Some(v) => v,
        None => {
            return None;
        },
    };
    let (x_amzn_trace_id, p3) = match read_string(b, p2) {
        Some(v) => v,
        None => {
            return None;
        },
    };
    let (seconds, p4) = match read_i64(b, p3) {
        Some(v) => v,
        None => {
            return None;
        },
    };
    let (nanoseconds, p5) = match read_i64(b, p4) {
        Some(v) => v,
        None => {
            return None;
        },
    };
    let (invoked_function_arn, p6) = match read_string(b, p5) {
        Some(v) => v,
        None => {
            return None;
        },
    };
    let (cognito_identity_id, p7) = match read_opt_string(b, p6) {
        Some(v) => v,
        None => {
            return None;
        },
    };
    let (cognito_identity_pool_id, p8) = match read_opt_string(b, p7) {
        Some(v) => v,
        None => {
            return None;
        },
    };
    let (client_context, p9) = match read_opt_bytes(b, p8) {
        Some(v) => v,
        None => {
            return None;
        },
    };
    Some(
        (
            InvokeRequest {
                seq,
                payload,
                request_id,
                x_amzn_trace_id,
                deadline: Deadline { seconds, nanoseconds },
                invoked_function_arn,
                cognito_identity_id,
                cognito_identity_pool_id,
                client_context,
            },
            p9,
        ),
    )
}

/// Reads the header record of either message kind: the method name and seq.
pub(crate) fn read_header(b: &[u8], pos: usize) -> (r: Option<((String, u64), usize)>)
    ensures
        match r {
            Some(((method, seq), p)) => dec_header_at(b@, pos as int) == Some(
                ((method@, seq), p as int),
            ),
            None => dec_header_at(b@, pos as int) is None,
        },
{
    match read_string(b, pos) {
        Some((method, p1)) => match read_u64(b, p1) {
            Some((seq, p2)) => Some(((method, seq), p2)),
            None => None,
        },
        None => None,
    }
}

/// Decodes one full request found at `pos`; `None` means the bytes at `pos`
/// do not hold a complete well-framed request.
pub fn decode_request(b: &[u8], pos: usize) -> (r: Option<(Request, usize)>)
    ensures
        match r {
            Some((req, p)) => dec_request_at(b@, pos as int) == Some((req@, p as int)),
            None => dec_request_at(b@, pos as int) is None,
        },
{
    match read_header(b, pos) {
        Some(((method, seq), p)) => {
            if str_eq(method.as_str(), service_method_ping()) {
                match read_byte(b, p) {
                    Some((0u8, p2)) => Some((Request::Ping(seq), p2)),
                    _ => None,
                }
            } else if str_eq(method.as_str(), service_method_invoke()) {
                match read_invoke_body(b, p, seq) {
                    Some((m, p2)) => Some((Request::Invoke(m), p2)),
                    None => None,
                }
            } else {
                None
            }
        },
        None => None,
    }
}

/// Decodes one full response found at `pos`; `None` means the bytes at `pos`
/// do not hold a complete well-framed response.
pub fn decode_response(b: &[u8], pos: usize) -> (r: Option<(Response, usize)>)
    ensures
        match r {
            Some((resp, p)) => dec_response_at(b@, pos as int) == Some((resp@, p as int)),
            None => dec_response_at(b@, pos as int) is None,
        },
{
    match read_header(b, pos) {
        Some(((method, seq), p)) => match read_byte(b, p) {
            Some((0u8, p1)) => {
                if str_eq(method.as_str(), service_method_ping()) {
                    match read_byte(b, p1) {
                        Some((0u8, p2)) => Some((Response::Ping(seq), p2)),
                        _ => None,
                    }
                } else if str_eq(method.as_str(), service_method_invoke()) {
                    match read_byte(b, p1) {
                        Some((0u8, p2)) => match read_bytes(b, p2) {
                            Some((payload, p3)) => Some((Response::Invoke(seq, Ok(payload)), p3)),
                            None => None,
                        },
                        Some((1u8, p2)) => match read_error(b, p2) {
                            Some((e, p3)) => Some((Response::Invoke(seq, Err(e)), p3)),
                            None => None,
                        },
                        _ => None,
                    }
                } else {
                    None
                }
            },
            _ => None,
        },
        None => None,
    }
}


/// The byte stream that a sequence of requests produces, in order.
pub open spec fn enc_requests(rs: Seq<RequestV>) -> Seq<u8>
    decreases rs.len(),
{
    if rs.len() == 0 {
        seq![]
    } else {
        enc_request(rs[0]) + enc_requests(rs.drop_first())
    }
}

/// Where the i-th request of the stream begins.
pub open spec fn stream_offset(rs: Seq<RequestV>, i: int) -> int
    decreases i,
{
    if i <= 0 {
        0
    } else {
        stream_offset(rs, i - 1) + enc_request(rs[i - 1]).len()
    }
}

/// An encoded request stream splits at any request boundary.
proof fn lemma_enc_requests_split(rs: Seq<RequestV>, i: int)
    requires
        0 <= i <= rs.len(),
    ensures
        enc_requests(rs) == enc_requests(rs.take(i)) + enc_requests(rs.skip(i)),
    decreases i,
{
    if i == 0 {
        assert(rs.take(0) =~= Seq::<RequestV>::empty());
        assert(rs.skip(0) =~= rs);
        assert(enc_requests(rs.take(0)) + enc_requests(rs.skip(0)) =~= enc_requests(rs));
    } else {
        let rest = rs.drop_first();
        lemma_enc_requests_split(rest, i - 1);
        assert(rs.take(i)[0] == rs[0]);
        assert(rs.take(i).drop_first() =~= rest.take(i - 1));
        assert(rs.skip(i) =~= rest.skip(i - 1));
        assert(enc_request(rs[0]) + (enc_requests(rest.take(i - 1)) + enc_requests(rs.skip(i)))
            =~= (enc_request(rs[0]) + enc_requests(rest.take(i - 1))) + enc_requests(rs.skip(i)));
    }
}

/// The i-th boundary sits exactly after the encodings of the first i
/// requests.
proof fn lemma_stream_offset_is_prefix_len(rs: Seq<RequestV>, i: int)
    requires
        0 <= i <= rs.len(),
    ensures
        stream_offset(rs, i) == enc_requests(rs.take(i)).len(),
    decreases i,
{
    if i == 0 {
        assert(rs.take(0) =~= Seq::<RequestV>::empty());
    } else {
        lemma_stream_offset_is_prefix_len(rs, i - 1);
        lemma_enc_requests_split(rs.take(i), i - 1);
        assert(rs.take(i).take(i - 1) =~= rs.take(i - 1));
        let last = rs.take(i).skip(i - 1);
        assert(last[0] == rs[i - 1]);
        assert(last.drop_first() =~= Seq::<RequestV>::empty());
        assert(enc_requests(last.drop_first()) =~= Seq::<u8>::empty());
        assert(enc_requests(last) =~= enc_request(rs[i - 1]));
    }
}

/// A whole encoded request stream decodes back request by request: at each
/// boundary the next decoded request is the next of the sequence, ending
/// exactly at the stream's end. With the decoder's poll contract, successive
/// polls over such a stream yield exactly these requests in order and then,
/// once end of input is signalled, the clean end.
pub proof fn lemma_request_stream_round_trip(rs: Seq<RequestV>)
    requires
        forall|i: int| 0 <= i < rs.len() ==> wf_request(#[trigger] rs[i]),
    ensures
        forall|i: int|
            0 <= i < rs.len() ==> dec_request_at(enc_requests(rs), #[trigger] stream_offset(rs, i))
                == Some((rs[i], stream_offset(rs, i + 1))),
        stream_offset(rs, rs.len() as int) == enc_requests(rs).len(),
{
    let b = enc_requests(rs);
    assert forall|i: int|
        0 <= i < rs.len() implies dec_request_at(b, #[trigger] stream_offset(rs, i)) == Some(
        (rs[i], stream_offset(rs, i + 1)),
    ) by {
        let off = stream_offset(rs, i);
        let e = enc_request(rs[i]);
        let rest = enc_requests(rs.skip(i + 1));
        lemma_stream_offset_is_prefix_len(rs, i);
        lemma_enc_requests_split(rs, i);
        assert(rs.skip(i)[0] == rs[i]);
        assert(rs.skip(i).drop_first() =~= rs.skip(i + 1));
        assert(enc_requests(rs.skip(i)) == e + rest);
        assert(0 <= off);
        assert(b =~= enc_requests(rs.take(i)) + (e + rest));
        assert(b.subrange(off, off + (e.len() + rest.len())) =~= e + rest);
        lemma_concat_split(b, off, e, rest);
        lemma_request_round_trip(b, off, rs[i]);
    }
    lemma_stream_offset_is_prefix_len(rs, rs.len() as int);
    assert(rs.take(rs.len() as int) =~= rs);
}

/// The method-name literals are short, so their encodings fit the length
/// prefix.
proof fn str_wf_ping()
    ensures
        wf_str(spec_method_ping()),
{
    reveal_strlit("Function.Ping");
    lemma_ascii_encode_len(spec_method_ping());
}

proof fn str_wf_invoke()
    ensures
        wf_str(spec_method_invoke()),
{
    reveal_strlit("Function.Invoke");
    lemma_ascii_encode_len(spec_method_invoke());
}

/// The UTF-8 encoding of a character sequence takes at most four bytes per
/// character.
pub proof fn lemma_ascii_encode_len(s: Seq<char>)
    ensures
        encode_utf8(s).len() <= 4 * s.len(),
    decreases s.len(),
{
    if s.len() > 0 {
        char_is_scalar(s[0]);
        lemma_ascii_encode_len(s.drop_first());
    }
}

} // verus!
