use std::collections::BTreeMap;

use aws_lambda::codec::{decode_request, decode_response, encode_request, encode_response};
use aws_lambda::connection::{Connection, DispatchStep, Invocation};
use aws_lambda::context::{Context, ContextScope};
use aws_lambda::decoder::{DecodeStep, Decoder, DecoderState};
use aws_lambda::encoder::{invocation_error, serialization_error, Encoder};
use aws_lambda::error::{ConnectionError, FrameFault};
use aws_lambda::messages::{Deadline, InvocationError, InvokeRequest, Request, Response, StackFrame};
use aws_lambda::parse_port;

fn sample_invoke(seq: u64) -> InvokeRequest {
    InvokeRequest {
        seq,
        payload: b"{\"key1\":\"value1\",\"key2\":\"value2\",\"key3\":\"value3\"}".to_vec(),
        request_id: "2ed80e4e-6196-11e8-876a-4f41bd893c42".to_string(),
        x_amzn_trace_id: "Root=1-5b0a8415-1fbc1427bb8682516302a55e;Parent=10eac6ec42206c50;Sampled=0"
            .to_string(),
        deadline: Deadline { seconds: 1527415833, nanoseconds: 32849522 },
        invoked_function_arn: "arn:aws:lambda:ap-southeast-2:771316043039:function:testFnGo"
            .to_string(),
        cognito_identity_id: None,
        cognito_identity_pool_id: None,
        client_context: None,
    }
}

#[test]
fn request_round_trip_ping() {
    let r = Request::Ping(7);
    let bytes = encode_request(&r);
    let (decoded, used) = decode_request(&bytes, 0).unwrap();
    assert_eq!(decoded, r);
    assert_eq!(used, bytes.len());
}

#[test]
fn request_round_trip_invoke_all_fields() {
    let mut m = sample_invoke(1);
    m.cognito_identity_id = Some("identity".to_string());
    m.cognito_identity_pool_id = Some("pool".to_string());
    m.client_context = Some(vec![1, 2, 3]);
    let r = Request::Invoke(m);
    let bytes = encode_request(&r);
    let (decoded, used) = decode_request(&bytes, 0).unwrap();
    assert_eq!(decoded, r);
    assert_eq!(used, bytes.len());
}

#[test]
fn request_round_trip_invoke_absent_optionals() {
    let r = Request::Invoke(sample_invoke(2));
    let bytes = encode_request(&r);
    let (decoded, used) = decode_request(&bytes, 0).unwrap();
    assert_eq!(decoded, r);
    assert_eq!(used, bytes.len());
}

#[test]
fn response_round_trip_all_shapes() {
    let cases = vec![
        Response::Ping(0),
        Response::Invoke(1, Ok(b"{}".to_vec())),
        Response::Invoke(
            2,
            Err(InvocationError {
                message: "boom".to_string(),
                kind_tag: "Error".to_string(),
                stack_trace: None,
                should_exit: false,
            }),
        ),
        Response::Invoke(
            3,
            Err(InvocationError {
                message: "boom".to_string(),
                kind_tag: "Error".to_string(),
                stack_trace: Some(vec![
                    StackFrame {
                        path: Some("src/main.rs".to_string()),
                        line: Some(10),
                        label: "main".to_string(),
                    },
                    StackFrame { path: None, line: None, label: "<unknown>".to_string() },
                ]),
                should_exit: true,
            }),
        ),
    ];
    for r in cases {
        let bytes = encode_response(&r);
        let (decoded, used) = decode_response(&bytes, 0).unwrap();
        assert_eq!(decoded, r);
        assert_eq!(used, bytes.len());
    }
}

#[test]
fn deadline_round_trips_at_boundaries() {
    for (secs, nanos) in [(0i64, 0i64), (1527415833, 999_999_999)] {
        let mut m = sample_invoke(9);
        m.deadline = Deadline { seconds: secs, nanoseconds: nanos };
        let bytes = encode_request(&Request::Invoke(m));
        let (decoded, _) = decode_request(&bytes, 0).unwrap();
        match decoded {
            Request::Invoke(m2) => {
                assert_eq!(m2.deadline.seconds, secs);
                assert_eq!(m2.deadline.nanoseconds, nanos);
            }
            _ => panic!("wrong request kind"),
        }
    }
}

#[test]
fn decoder_resumes_mid_message() {
    let bytes = encode_request(&Request::Invoke(sample_invoke(3)));
    let mut decoder = Decoder::new();
    let (head, tail) = bytes.split_at(bytes.len() / 2);
    decoder.push_bytes(head);
    assert_eq!(decoder.poll(), DecodeStep::NotReady);
    decoder.push_bytes(tail);
    match decoder.poll() {
        DecodeStep::Request(Request::Invoke(m)) => assert_eq!(m.seq, 3),
        other => panic!("expected the completed request, got {:?}", other),
    }
    assert_eq!(decoder.state, DecoderState::PendingHeader);
}

#[test]
fn decoder_accepts_clean_eof_only_between_messages() {
    let mut decoder = Decoder::new();
    decoder.push_bytes(&encode_request(&Request::Ping(0)));
    decoder.signal_eof();
    assert!(matches!(decoder.poll(), DecodeStep::Request(Request::Ping(0))));
    assert_eq!(decoder.poll(), DecodeStep::Eof);

    let mut truncated = Decoder::new();
    let bytes = encode_request(&Request::Invoke(sample_invoke(4)));
    truncated.push_bytes(&bytes[..bytes.len() - 5]);
    truncated.signal_eof();
    assert_eq!(truncated.poll(), DecodeStep::TruncatedStream);
    assert_eq!(truncated.state, DecoderState::Failed);
}

#[test]
fn decoder_rejects_unknown_service_method() {
    let mut bytes = encode_request(&Request::Ping(0));
    // corrupt one character of the method name, keeping its length
    bytes[8 + 9] = b'x';
    let mut decoder = Decoder::new();
    decoder.push_bytes(&bytes);
    assert_eq!(decoder.poll(), DecodeStep::Frame(FrameFault::UnknownServiceMethod));
}

#[test]
fn encoder_hands_out_exactly_what_was_queued() {
    let mut encoder = Encoder::new();
    encoder.start_send(&Response::Ping(0));
    encoder.start_send(&Response::Invoke(1, Ok(b"hi".to_vec())));
    let mut taken: Vec<u8> = Vec::new();
    while !encoder.is_flushed() {
        // drain in deliberately small pieces, as a slow socket would
        let n = encoder.pending().len().min(3);
        taken.extend_from_slice(&encoder.pending()[..n]);
        encoder.mark_written(n);
    }
    let mut expected = encode_response(&Response::Ping(0));
    expected.extend_from_slice(&encode_response(&Response::Invoke(1, Ok(b"hi".to_vec()))));
    assert_eq!(taken, expected);
}

fn drain(conn: &mut Connection) -> Vec<u8> {
    let mut out = Vec::new();
    out.extend_from_slice(conn.encoder.pending());
    let n = out.len();
    conn.encoder.mark_written(n);
    out
}

#[test]
fn scenario_ping_is_answered_with_its_seq() {
    let mut conn = Connection::new();
    conn.feed(&encode_request(&Request::Ping(0)));
    match conn.poll_dispatch() {
        DispatchStep::Ping(seq) => assert_eq!(seq, 0),
        _ => panic!("expected a ping"),
    }
    let bytes = drain(&mut conn);
    let (resp, _) = decode_response(&bytes, 0).unwrap();
    assert_eq!(resp, Response::Ping(0));
}

#[test]
fn scenario_invoke_echo() {
    let mut conn = Connection::new();
    conn.feed(&encode_request(&Request::Invoke(sample_invoke(1))));
    let inv: Invocation = match conn.poll_dispatch() {
        DispatchStep::Invoke(inv) => inv,
        _ => panic!("expected an invocation"),
    };
    assert_eq!(inv.seq, 1);
    assert_eq!(inv.deadline.seconds, 1527415833);
    assert_eq!(inv.deadline.nanoseconds, 32849522);
    assert_eq!(inv.context.aws_request_id(), "2ed80e4e-6196-11e8-876a-4f41bd893c42");
    assert_eq!(
        inv.context.invoked_function_arn(),
        "arn:aws:lambda:ap-southeast-2:771316043039:function:testFnGo"
    );

    // the user payload is a JSON document; echo it back
    let map: BTreeMap<String, String> = serde_json::from_slice(&inv.payload).unwrap();
    assert_eq!(map.len(), 3);
    assert_eq!(map["key1"], "value1");
    assert_eq!(map["key2"], "value2");
    assert_eq!(map["key3"], "value3");
    let echoed = serde_json::to_vec(&map).unwrap();
    conn.complete_invocation(1, Ok(echoed));

    let bytes = drain(&mut conn);
    let (resp, _) = decode_response(&bytes, 0).unwrap();
    assert_eq!(
        resp,
        Response::Invoke(
            1,
            Ok(b"{\"key1\":\"value1\",\"key2\":\"value2\",\"key3\":\"value3\"}".to_vec())
        )
    );
}

#[test]
fn scenario_handler_error_becomes_invocation_error() {
    let mut conn = Connection::new();
    let mut m = sample_invoke(6);
    m.payload = b"{}".to_vec();
    conn.feed(&encode_request(&Request::Invoke(m)));
    match conn.poll_dispatch() {
        DispatchStep::Invoke(inv) => assert_eq!(inv.seq, 6),
        _ => panic!("expected an invocation"),
    }
    conn.complete_invocation(6, Err(invocation_error("boom".to_string(), "no backtrace")));
    let bytes = drain(&mut conn);
    let (resp, _) = decode_response(&bytes, 0).unwrap();
    match resp {
        Response::Invoke(6, Err(e)) => {
            assert_eq!(e.message, "boom");
            assert_eq!(e.kind_tag, "Error");
            assert!(e.stack_trace.is_none());
            assert!(!e.should_exit);
        }
        other => panic!("expected the failure response, got {:?}", other),
    }
}

#[test]
fn scenario_completion_order_decides_response_order() {
    let mut conn = Connection::new();
    let mut four = sample_invoke(4);
    four.request_id = "request-four".to_string();
    let mut five = sample_invoke(5);
    five.request_id = "request-five".to_string();
    conn.feed(&encode_request(&Request::Invoke(four)));
    conn.feed(&encode_request(&Request::Invoke(five)));

    let inv4 = match conn.poll_dispatch() {
        DispatchStep::Invoke(inv) => inv,
        _ => panic!("expected the first invocation"),
    };
    let inv5 = match conn.poll_dispatch() {
        DispatchStep::Invoke(inv) => inv,
        _ => panic!("expected the second invocation"),
    };
    assert_eq!(inv4.seq, 4);
    assert_eq!(inv5.seq, 5);
    // each invocation's context carries its own request's metadata
    assert_eq!(inv4.context.aws_request_id(), "request-four");
    assert_eq!(inv5.context.aws_request_id(), "request-five");

    // seq 5 completes first; responses leave in completion order
    conn.complete_invocation(5, Ok(b"5".to_vec()));
    conn.complete_invocation(4, Ok(b"4".to_vec()));
    let bytes = drain(&mut conn);
    let (first, used) = decode_response(&bytes, 0).unwrap();
    let (second, _) = decode_response(&bytes, used).unwrap();
    assert_eq!(first, Response::Invoke(5, Ok(b"5".to_vec())));
    assert_eq!(second, Response::Invoke(4, Ok(b"4".to_vec())));
}

#[test]
fn decode_failure_does_not_block_later_requests() {
    let mut conn = Connection::new();
    let mut bad = sample_invoke(7);
    bad.payload = b"not json".to_vec();
    conn.feed(&encode_request(&Request::Invoke(bad)));
    let inv = match conn.poll_dispatch() {
        DispatchStep::Invoke(inv) => inv,
        _ => panic!("expected the invocation"),
    };
    // the user-level payload decode fails; no task starts for seq 7
    assert!(serde_json::from_slice::<BTreeMap<String, String>>(&inv.payload).is_err());
    conn.complete_invocation(
        7,
        Err(invocation_error("invalid payload".to_string(), "")),
    );

    // the connection keeps processing later well-formed requests
    conn.feed(&encode_request(&Request::Ping(8)));
    assert!(matches!(conn.poll_dispatch(), DispatchStep::Ping(8)));
    let bytes = drain(&mut conn);
    let (first, used) = decode_response(&bytes, 0).unwrap();
    let (second, _) = decode_response(&bytes, used).unwrap();
    match first {
        Response::Invoke(7, Err(e)) => assert_eq!(e.message, "invalid payload"),
        other => panic!("expected the per-seq failure, got {:?}", other),
    }
    assert_eq!(second, Response::Ping(8));
}

#[test]
fn direct_failure_leaves_decoder_and_inflight_untouched() {
    let mut conn = Connection::new();
    conn.fail_invocation(
        11,
        invocation_error("bad body".to_string(), "definitely not a backtrace"),
    );
    conn.feed(&encode_request(&Request::Ping(12)));
    assert!(matches!(conn.poll_dispatch(), DispatchStep::Ping(12)));
    let bytes = drain(&mut conn);
    let (first, used) = decode_response(&bytes, 0).unwrap();
    let (second, _) = decode_response(&bytes, used).unwrap();
    assert!(matches!(first, Response::Invoke(11, Err(_))));
    assert_eq!(second, Response::Ping(12));
}

#[test]
fn connection_ends_only_on_clean_eof_with_nothing_pending() {
    let mut conn = Connection::new();
    conn.feed(&encode_request(&Request::Ping(1)));
    conn.finish_input();
    assert!(matches!(conn.poll_dispatch(), DispatchStep::Ping(1)));
    assert!(!conn.is_done());
    assert!(matches!(conn.poll_dispatch(), DispatchStep::Eof));
    assert!(!conn.is_done());
    drain(&mut conn);
    assert!(conn.is_done());
}

#[test]
fn truncated_stream_is_connection_fatal() {
    let mut conn = Connection::new();
    let bytes = encode_request(&Request::Invoke(sample_invoke(9)));
    conn.feed(&bytes[..bytes.len() - 1]);
    conn.finish_input();
    assert!(matches!(
        conn.poll_dispatch(),
        DispatchStep::Fatal(ConnectionError::UnexpectedEndOfStream)
    ));
}

#[test]
fn context_current_fails_outside_invocation() {
    let scope = ContextScope::new();
    assert!(Context::current(&scope).is_err());
}

#[test]
fn context_current_returns_the_running_invocations_metadata() {
    let mut conn = Connection::new();
    let mut m = sample_invoke(1);
    m.cognito_identity_id = Some("identity".to_string());
    m.cognito_identity_pool_id = Some("pool".to_string());
    conn.feed(&encode_request(&Request::Invoke(m)));
    let inv = match conn.poll_dispatch() {
        DispatchStep::Invoke(inv) => inv,
        _ => panic!("expected the invocation"),
    };

    let mut scope = ContextScope::new();
    scope.enter(inv.context);
    let ctx = Context::current(&scope).unwrap();
    assert_eq!(ctx.aws_request_id(), "2ed80e4e-6196-11e8-876a-4f41bd893c42");
    assert_eq!(
        ctx.invoked_function_arn(),
        "arn:aws:lambda:ap-southeast-2:771316043039:function:testFnGo"
    );
    assert_eq!(ctx.identity().id(), Some("identity"));
    assert_eq!(ctx.identity().pool_id(), Some("pool"));
    assert!(ctx.client_context().is_none());
    scope.exit().unwrap();
    assert!(Context::current(&scope).is_err());
}

#[test]
fn invocation_error_parses_a_backtrace_best_effort() {
    let e = invocation_error("boom".to_string(), "stack backtrace: 0: 0x0 - <no info>");
    assert_eq!(e.message, "boom");
    assert_eq!(e.kind_tag, "Error");
    assert!(e.stack_trace.is_some());
    assert!(!e.should_exit);

    let plain = invocation_error("boom".to_string(), "nothing that parses");
    assert!(plain.stack_trace.is_none());
}

#[test]
fn serialization_failure_becomes_a_response_error() {
    let e = serialization_error("foo bar reason");
    assert_eq!(e.message, "failed to serialize response: foo bar reason");
    assert_eq!(e.kind_tag, "Error");
    assert!(e.stack_trace.is_none());
    assert!(!e.should_exit);
}

#[test]
fn parse_port_accepts_only_port_numbers() {
    assert_eq!(parse_port("8080"), Some(8080));
    assert_eq!(parse_port("65535"), Some(65535));
    assert_eq!(parse_port(""), None);
    assert_eq!(parse_port("nope"), None);
    assert_eq!(parse_port("65536"), None);
    assert_eq!(parse_port("-1"), None);
}

#[test]
fn failure_errors_render_into_invocation_errors() {
    let err = failure::err_msg("boom");
    let e = aws_lambda::encoder::invocation_error_of_failure(&err);
    assert_eq!(e.message, "boom");
    assert_eq!(e.kind_tag, "Error");
    assert!(!e.should_exit);
}

#[test]
fn memory_size_scales_megabytes_to_bytes() {
    assert_eq!(aws_lambda::memory_size_bytes("128"), Some(128 * 1024 * 1024));
    assert_eq!(aws_lambda::memory_size_bytes("0"), Some(0));
    assert_eq!(aws_lambda::memory_size_bytes(""), None);
    assert_eq!(aws_lambda::memory_size_bytes("128MB"), None);
    assert_eq!(aws_lambda::memory_size_bytes("99999999999999999999"), None);
}
