use aws_lambda::buildtool::{DockerRunner, Link, MuslVersion, OpenSslVersion, RustupVersion};
use aws_lambda::commands::buildcmd;
use aws_lambda::commands::check::CheckScope;
use aws_lambda::context::{Client, ClientContext, CognitoIdentity};
use aws_lambda::error::RuntimeError;
use aws_lambda::events::{CloudwatchLogsEvent, CloudwatchLogsRawData, IoTButtonEvent, SqsEvent};
use aws_lambda::gateway::{Body, PathParameters, QueryParameters};
use aws_lambda::gomodel::{
    mangle, make_rust_type_with_no_libraries, parse_comment, parse_go_ident,
    parse_go_package_ident, parse_go_type_interface, parse_go_type_primitive,
    translate_go_type_to_rust_type, GoType,
};
use aws_lambda::gorender::{parse_go_string, GoCode};
use aws_lambda::handler::Handler;
use aws_lambda::messages::InvocationError;

#[test]
fn gateway_body_carries_text_and_bytes() {
    let text = Body::from_text("hello".to_string());
    assert_eq!(text.as_bytes(), b"hello");
    assert_eq!(text.as_str().unwrap(), "hello");

    let binary = Body::from_bytes(vec![0xff, 0xfe]);
    assert_eq!(binary.as_bytes(), &[0xff, 0xfe]);
    assert!(binary.as_str().is_err());

    let empty = Body::default();
    assert_eq!(empty.as_bytes(), b"");
    assert_eq!(empty.as_str().unwrap(), "");
}

#[test]
fn gateway_parameters_answer_lookups() {
    let path = PathParameters::new(vec![("proxy".to_string(), "hello/world".to_string())]);
    assert_eq!(path.get("proxy"), Some("hello/world"));
    assert_eq!(path.get("missing"), None);

    let query = QueryParameters::new(vec![("name".to_string(), "me".to_string())]);
    assert_eq!(query.get("name"), Some("me"));
    assert_eq!(query.get("proxy"), None);
}

#[test]
fn client_context_getters_return_what_was_stored() {
    let ctx = ClientContext {
        client: Client {
            installation_id: "install".to_string(),
            app_title: "title".to_string(),
            app_version_code: "1.2".to_string(),
            app_package_name: "pkg".to_string(),
        },
        env: vec![("platform".to_string(), "test".to_string())],
        custom: vec![("k".to_string(), "v".to_string())],
    };
    assert_eq!(ctx.client().installation_id(), "install");
    assert_eq!(ctx.client().app_title(), "title");
    assert_eq!(ctx.client().app_version_code(), "1.2");
    assert_eq!(ctx.client().app_package_name(), "pkg");
    assert_eq!(ctx.get_environment("platform"), Some("test"));
    assert_eq!(ctx.get_custom("k"), Some("v"));
    assert_eq!(ctx.get_custom("missing"), None);

    let id = CognitoIdentity { cognito_identity_id: None, cognito_identity_pool_id: None };
    assert_eq!(id.id(), None);
    assert_eq!(id.pool_id(), None);
}

#[test]
fn runtime_errors_describe_themselves() {
    let io = RuntimeError::from_io("connection reset".to_string());
    let env = RuntimeError::environment("the port variable is unset");
    assert_ne!(io, env);
}

#[test]
fn handler_wraps_a_function_into_a_service() {
    let handler = Handler::from(|payload: Vec<u8>| -> Result<Vec<u8>, InvocationError> {
        Ok(payload)
    });
    let service = handler.new_service();
    assert!(service.poll_ready());
    assert_eq!(service.call(b"data".to_vec()).unwrap(), b"data");
}

#[test]
fn mangle_renames_keywords_only() {
    assert_eq!(mangle("ref"), "ref_");
    assert_eq!(mangle("type"), "type_");
    assert_eq!(mangle("name"), "name");
}

#[test]
fn parse_comment_strips_marker_and_whitespace() {
    assert_eq!(parse_comment("// whatever"), "whatever");
    assert_eq!(parse_comment("//   padded   "), "padded");
    assert_eq!(parse_comment("no marker"), "no marker");
}

#[test]
fn go_primitive_names_map_to_go_types() {
    assert!(matches!(parse_go_type_primitive("string"), Ok(GoType::StringType)));
    assert!(matches!(parse_go_type_primitive("int64"), Ok(GoType::IntType)));
    assert!(matches!(parse_go_type_primitive("uint32"), Ok(GoType::UnsignedIntType)));
    assert!(matches!(parse_go_type_primitive("float64"), Ok(GoType::FloatType)));
    assert!(matches!(parse_go_type_primitive("bool"), Ok(GoType::BoolType)));
    assert!(matches!(parse_go_type_primitive("byte"), Ok(GoType::ByteType)));
    assert!(parse_go_type_primitive("void").is_err());
}

#[test]
fn go_idents_map_to_go_types() {
    assert!(matches!(
        parse_go_ident("MilliSecondsEpochTime"),
        Ok(GoType::TimestampMillisecondsType)
    ));
    assert!(matches!(parse_go_ident("SecondsEpochTime"), Ok(GoType::TimestampSecondsType)));
    match parse_go_ident("KinesisRecord") {
        Ok(GoType::UserDefined(name)) => assert_eq!(name, "KinesisRecord"),
        other => panic!("expected a user-defined type, got {:?}", other),
    }
    assert!(matches!(parse_go_package_ident("time.Time"), Ok(GoType::TimeType)));
    assert!(matches!(parse_go_package_ident("json.RawMessage"), Ok(GoType::JsonRawType)));
    assert!(parse_go_package_ident("foo.Bar").is_err());
    assert!(matches!(parse_go_type_interface("interface{}"), Ok(GoType::InterfaceType)));
}

#[test]
fn translate_renders_rust_types_with_their_needs() {
    let plain = make_rust_type_with_no_libraries("String");
    assert_eq!(plain.value, "String");
    assert!(plain.libraries.is_empty());
    assert!(plain.annotations.is_empty());

    let user = translate_go_type_to_rust_type(GoType::UserDefined("user_name".to_string()))
        .unwrap();
    assert_eq!(user.value, "UserName");

    let bytes = translate_go_type_to_rust_type(GoType::ArrayType(Box::new(GoType::ByteType)))
        .unwrap();
    assert_eq!(bytes.value, "Vec<u8>");
    assert_eq!(bytes.annotations, vec![
        "#[serde(deserialize_with = \"deserialize_base64\")]".to_string()
    ]);
    assert_eq!(bytes.libraries, vec!["super::super::deserializers::*".to_string()]);

    let map = translate_go_type_to_rust_type(GoType::MapOf(
        Box::new(GoType::StringType),
        Box::new(GoType::InterfaceType),
    ))
    .unwrap();
    assert_eq!(map.value, "HashMap<String, Value>");
    assert_eq!(map.libraries, vec![
        "serde_json::Value".to_string(),
        "std::collections::HashMap".to_string()
    ]);

    let stamp = translate_go_type_to_rust_type(GoType::TimestampSecondsType).unwrap();
    assert_eq!(stamp.value, "DateTime<Utc>");
    assert_eq!(stamp.annotations, vec![
        "#[serde(deserialize_with = \"deserialize_seconds\")]".to_string()
    ]);
}

#[test]
fn parse_go_string_renders_structs_and_aliases() {
    let source = "package events\n\ntype MyEvent struct {\n  EventName string `json:\"eventName\"`\n  Payload map[string]interface{} `json:\"payload,omitempty\"`\n}\n\ntype RawData json.RawMessage\n";
    let (go, rust) = parse_go_string(source.to_string()).unwrap();
    assert_eq!(go, GoCode(source.to_string()));
    assert_eq!(go.text(), source);
    let rendered = rust.to_text();
    assert!(rendered.contains("pub struct MyEvent"));
    assert!(rendered.contains("event_name"));
    assert!(rendered.contains("#[serde(rename = \"eventName\")]"));
    assert!(rendered.contains("Option<HashMap<String, Value>>"));
    assert!(rendered.contains("pub type RawData = Value;"));
    assert!(rendered.contains("use serde_json::Value;"));
}

#[test]
fn parse_go_string_rejects_text_outside_the_grammar() {
    assert!(parse_go_string("func main() {}".to_string()).is_err());
}

#[test]
fn build_command_defaults_release_and_target() {
    let plain = buildcmd::Settings { cargo_args: vec![] };
    assert_eq!(
        buildcmd::command_for(&plain, "x86_64-unknown-linux-gnu"),
        vec!["cargo", "build", "--release", "--target", "x86_64-unknown-linux-gnu"]
    );

    let dev = buildcmd::Settings { cargo_args: vec!["--dev".to_string()] };
    assert_eq!(
        buildcmd::command_for(&dev, "t"),
        vec!["cargo", "build", "--target", "t", "--dev"]
    );

    let pinned = buildcmd::Settings {
        cargo_args: vec!["--target".to_string(), "mine".to_string()],
    };
    assert_eq!(
        buildcmd::command_for(&pinned, "t"),
        vec!["cargo", "build", "--release", "--target", "mine"]
    );
}

#[test]
fn link_styles_pick_their_targets() {
    assert_eq!(Link::Static.target_triple(), "x86_64-unknown-linux-musl");
    assert_eq!(Link::Dynamic.target_triple(), "x86_64-unknown-linux-gnu");
    assert_ne!(CheckScope::Docker, CheckScope::Rust);
}

#[test]
fn docker_runner_records_its_recipe() {
    let mut runner = DockerRunner::new("FROM scratch", "rust-amazonlinux-lambda-dynamic");
    assert_eq!(runner.dockerfile, "FROM scratch");
    assert_eq!(runner.image_name, "rust-amazonlinux-lambda-dynamic");
    assert!(!runner.checked);
    runner.mark_checked();
    assert!(runner.checked);

    assert_eq!(MuslVersion::new("1.1.19").text(), "1.1.19");
    assert_eq!(OpenSslVersion::new("1.1.0i").text(), "1.1.0i");
    assert_eq!(RustupVersion::new("1.27.0").text(), "1.27.0");
}

#[test]
fn event_shapes_hold_plain_values() {
    let event = CloudwatchLogsEvent {
        aws_logs: CloudwatchLogsRawData { data: Some("AAAA".to_string()) },
    };
    assert_eq!(event.aws_logs.data.as_deref(), Some("AAAA"));

    let button = IoTButtonEvent {
        serial_number: Some("sn".to_string()),
        click_type: Some("SINGLE".to_string()),
        battery_voltage: Some("2000mV".to_string()),
    };
    assert_eq!(button.click_type.as_deref(), Some("SINGLE"));

    let sqs = SqsEvent { records: vec![] };
    assert!(sqs.records.is_empty());
}

#[test]
fn request_body_streams_its_bytes_once() {
    let mut stream = aws_lambda::towerweb::RequestBody::new(Body::from_text("abcdef".to_string()));
    let mut buf = stream.poll().expect("first poll yields the body");
    assert_eq!(buf.remaining(), 6);
    assert_eq!(buf.bytes(), b"abcdef");
    buf.advance(4);
    assert_eq!(buf.remaining(), 2);
    assert_eq!(buf.bytes(), b"ef");
    assert!(stream.poll().is_none());
}
