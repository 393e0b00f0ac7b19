use amele_guest::session::{
    build_call_request, build_respond_message, finish_call, mode_of, AcceptStep, Config,
    ConfigKey, Error, Mode, RespondAction, Session,
};
use amele_guest::value::{find_key, has_str_field, take_field, take_mapping, Mapping, Value};

fn s(text: &str) -> String {
    text.to_string()
}

fn str_value(text: &str) -> Value {
    Value::Str(s(text))
}

fn config(protocol: Option<&str>, port: Option<&str>, inbox: Option<&str>, outbox: Option<&str>) -> Config {
    Config {
        protocol: protocol.map(s),
        tcp_port: port.map(s),
        inbox_file: inbox.map(s),
        outbox_file: outbox.map(s),
    }
}

fn socket_session() -> Session<u8> {
    Session::new(config(Some("tcp"), Some("9000"), None, None))
}

fn file_session() -> Session<u8> {
    Session::new(config(None, None, Some("/tmp/in"), Some("/tmp/out")))
}

fn sample_context() -> Mapping {
    vec![(s("user"), str_value("ada")), (s("step"), Value::PosInt(3))]
}

fn sample_inputs() -> Mapping {
    vec![(s("n"), Value::NegInt(-4)), (s("flags"), Value::Array(vec![Value::Bool(true), Value::Null]))]
}

fn call_result(id: &str, extra: Vec<(String, Value)>) -> Value {
    let mut m = vec![(s("type"), str_value("call_result")), (s("id"), str_value(id))];
    m.extend(extra);
    Value::Object(m)
}

#[test]
fn mode_is_socket_only_for_tcp() {
    assert_eq!(mode_of(&Some(s("tcp"))), Mode::Socket);
    assert_eq!(mode_of(&Some(s("shmem"))), Mode::FilePair);
    assert_eq!(mode_of(&Some(s("TCP"))), Mode::FilePair);
    assert_eq!(mode_of(&None), Mode::FilePair);
}

#[test]
fn plan_accept_in_socket_mode_connects_to_port() {
    let session = socket_session();
    assert_eq!(session.plan_accept(), Ok(AcceptStep::Connect { port: s("9000") }));
}

#[test]
fn plan_accept_in_socket_mode_without_port_is_missing_config() {
    let session: Session<u8> = Session::new(config(Some("tcp"), None, Some("/tmp/in"), None));
    assert_eq!(session.plan_accept(), Err(Error::MissingConfig(ConfigKey::TcpPort)));
}

#[test]
fn plan_accept_in_file_mode_reads_inbox() {
    let session = file_session();
    assert_eq!(session.plan_accept(), Ok(AcceptStep::ReadInbox { path: s("/tmp/in") }));
}

#[test]
fn accept_without_channel_returns_empty_inputs() {
    let mut session: Session<u8> = Session::new(config(Some("other"), None, None, None));
    assert_eq!(session.plan_accept(), Ok(AcceptStep::Standalone));
    assert_eq!(session.accept(None), Ok(vec![]));
    assert!(session.context().is_empty());
}

#[test]
fn accept_returns_inputs_and_stores_context() {
    let mut session = file_session();
    let envelope = Value::Object(vec![
        (s("context"), Value::Object(sample_context())),
        (s("inputs"), Value::Object(sample_inputs())),
    ]);
    assert_eq!(session.accept(Some(envelope)), Ok(sample_inputs()));
    assert_eq!(session.context(), &sample_context());
}

#[test]
fn accept_with_inputs_before_context() {
    let mut session = socket_session();
    let envelope = Value::Object(vec![
        (s("inputs"), Value::Object(sample_inputs())),
        (s("other"), Value::Bool(false)),
        (s("context"), Value::Object(sample_context())),
    ]);
    assert_eq!(session.accept(Some(envelope)), Ok(sample_inputs()));
    assert_eq!(session.context(), &sample_context());
}

#[test]
fn accept_without_context_stores_empty_context() {
    let mut session = file_session();
    let envelope = Value::Object(vec![(s("inputs"), Value::Object(sample_inputs()))]);
    assert_eq!(session.accept(Some(envelope)), Ok(sample_inputs()));
    assert!(session.context().is_empty());
}

#[test]
fn accept_with_malformed_context_stores_empty_context() {
    let mut session = file_session();
    let envelope = Value::Object(vec![
        (s("context"), str_value("not a mapping")),
        (s("inputs"), Value::Array(vec![])),
    ]);
    assert_eq!(session.accept(Some(envelope)), Ok(vec![]));
    assert!(session.context().is_empty());
}

#[test]
fn accept_of_non_mapping_envelope_is_codec_error() {
    let mut session = file_session();
    let r = session.accept(Some(Value::Array(vec![Value::Null])));
    assert!(matches!(r, Err(Error::CodecError(_))));
    assert!(session.context().is_empty());
    let envelope = Value::Object(vec![(s("context"), Value::Object(sample_context()))]);
    assert_eq!(session.accept(Some(envelope)), Ok(vec![]));
    assert_eq!(session.context(), &sample_context());
}

#[test]
fn second_accept_keeps_first_context() {
    let mut session = file_session();
    let first = Value::Object(vec![(s("context"), Value::Object(sample_context()))]);
    assert_eq!(session.accept(Some(first)), Ok(vec![]));
    let second = Value::Object(vec![
        (s("context"), Value::Object(vec![(s("user"), str_value("bob"))])),
        (s("inputs"), Value::Object(sample_inputs())),
    ]);
    assert_eq!(session.accept(Some(second)), Ok(sample_inputs()));
    assert_eq!(session.context(), &sample_context());
}

#[test]
fn context_is_empty_before_accept() {
    let session = socket_session();
    assert!(session.context().is_empty());
}

#[test]
fn connect_keeps_first_transport() {
    let mut session = socket_session();
    assert!(!session.is_connected());
    assert!(session.transport_mut().is_none());
    session.connect(1);
    session.connect(2);
    assert!(session.is_connected());
    assert_eq!(session.transport_mut().map(|t| *t), Some(1));
}

#[test]
fn call_function_in_file_mode_is_unsupported() {
    let mut session = file_session();
    session.connect(1);
    assert_eq!(session.call_function("f", vec![]), Err(Error::UnsupportedOperation));
    assert_eq!(session.call_function("g", sample_inputs()), Err(Error::UnsupportedOperation));
}

#[test]
fn call_function_before_connect_is_not_initialized() {
    let session = socket_session();
    assert_eq!(session.call_function("f", vec![]), Err(Error::NotInitialized));
}

#[test]
fn call_function_builds_request_with_fresh_token() {
    let mut session = socket_session();
    session.connect(1);
    let first = session.call_function("add", sample_inputs()).unwrap();
    let second = session.call_function("add", vec![]).unwrap();
    assert_eq!(first.id.len(), 36);
    for i in [8, 13, 18, 23] {
        assert_eq!(first.id.as_bytes()[i], b'-');
    }
    assert_eq!(first.id.as_bytes()[14], b'4');
    assert_ne!(first.id, second.id);
    let expected = Value::Object(vec![
        (s("function"), str_value("add")),
        (s("id"), Value::Str(first.id.clone())),
        (s("inputs"), Value::Object(sample_inputs())),
        (s("type"), str_value("call")),
    ]);
    assert_eq!(first.request, expected);
}

#[test]
fn call_round_trip_returns_result() {
    let mut session = socket_session();
    session.connect(1);
    let pending = session.call_function("f", vec![]).unwrap();
    let result = Value::Object(vec![(s("x"), Value::PosInt(1))]);
    let response = call_result(&pending.id, vec![(s("result"), result)]);
    assert_eq!(finish_call(&pending.id, response), Ok(vec![(s("x"), Value::PosInt(1))]));
}

#[test]
fn call_error_is_remote_error() {
    let response = call_result("abc", vec![(s("error"), str_value("boom"))]);
    assert_eq!(finish_call("abc", response), Err(Error::RemoteError(s("boom"))));
}

#[test]
fn call_error_that_is_not_text_is_unknown_error() {
    let response = call_result(
        "abc",
        vec![(s("result"), Value::Object(vec![])), (s("error"), Value::PosInt(7))],
    );
    assert_eq!(finish_call("abc", response), Err(Error::RemoteError(s("Unknown error"))));
}

#[test]
fn call_with_mismatched_id_is_protocol_violation() {
    let make = || call_result("other", vec![(s("result"), Value::Object(vec![]))]);
    assert_eq!(finish_call("abc", make()), Err(Error::ProtocolViolation(make())));
}

#[test]
fn call_with_wrong_type_is_protocol_violation() {
    let make = || {
        Value::Object(vec![
            (s("type"), str_value("respond")),
            (s("id"), str_value("abc")),
            (s("result"), Value::Object(vec![])),
        ])
    };
    assert_eq!(finish_call("abc", make()), Err(Error::ProtocolViolation(make())));
    assert_eq!(finish_call("abc", Value::Null), Err(Error::ProtocolViolation(Value::Null)));
}

#[test]
fn call_without_result_returns_empty_mapping() {
    assert_eq!(finish_call("abc", call_result("abc", vec![])), Ok(vec![]));
}

#[test]
fn call_result_that_is_not_a_mapping_is_codec_error() {
    let response = call_result("abc", vec![(s("result"), Value::PosInt(1))]);
    assert!(matches!(finish_call("abc", response), Err(Error::CodecError(_))));
}

#[test]
fn respond_in_file_mode_writes_bare_context() {
    let session = file_session();
    assert_eq!(
        session.respond(sample_context()),
        Ok(RespondAction::WriteFile { path: s("/tmp/out"), payload: sample_context() })
    );
}

#[test]
fn respond_in_file_mode_without_outbox_is_missing_config() {
    let session: Session<u8> = Session::new(config(None, None, None, None));
    assert_eq!(session.respond(vec![]), Err(Error::MissingConfig(ConfigKey::OutboxFile)));
}

#[test]
fn respond_in_socket_mode_before_connect_is_not_initialized() {
    let session = socket_session();
    assert_eq!(session.respond(sample_context()), Err(Error::NotInitialized));
}

#[test]
fn respond_in_socket_mode_sends_message() {
    let mut session = socket_session();
    session.connect(1);
    let expected = Value::Object(vec![
        (s("context"), Value::Object(sample_context())),
        (s("type"), str_value("respond")),
    ]);
    assert_eq!(session.respond(sample_context()), Ok(RespondAction::Send(expected)));
    assert_eq!(build_respond_message(vec![]), Value::Object(vec![
        (s("context"), Value::Object(vec![])),
        (s("type"), str_value("respond")),
    ]));
}

#[test]
fn build_call_request_uses_given_token() {
    let id = s("00000000-0000-4000-8000-000000000000");
    let r = build_call_request("f", vec![], &id);
    assert!(matches!(&r, Value::Object(m) if has_str_field(m, "id", &id) && has_str_field(m, "type", "call")));
}

#[test]
fn lookup_takes_first_entry_and_keeps_others() {
    let mut m: Mapping = vec![
        (s("a"), Value::PosInt(1)),
        (s("b"), Value::Object(vec![(s("c"), Value::Null)])),
        (s("a"), Value::PosInt(2)),
    ];
    assert_eq!(find_key(&m, "a"), Some(0));
    assert_eq!(find_key(&m, "z"), None);
    assert_eq!(take_field(&mut m, "a"), Some(Value::PosInt(1)));
    assert_eq!(take_mapping(&mut m, "b"), vec![(s("c"), Value::Null)]);
    assert_eq!(take_mapping(&mut m, "a"), vec![]);
    assert_eq!(take_field(&mut m, "missing"), None);
    assert!(m.is_empty());
}

#[test]
fn outbox_payload_round_trips_through_codec() {
    let mut context: std::collections::HashMap<String, serde_json::Value> =
        std::collections::HashMap::new();
    context.insert(s("user"), serde_json::Value::String(s("ada")));
    context.insert(s("step"), serde_json::Value::from(3u64));
    context.insert(s("ratio"), serde_json::Value::from(-1.5f64));
    let bytes = rmp_serde::to_vec(&context).unwrap();
    let back: std::collections::HashMap<String, serde_json::Value> =
        rmp_serde::from_slice(&bytes).unwrap();
    assert_eq!(back, context);
    assert!(rmp_serde::from_slice::<serde_json::Value>(&bytes[..bytes.len() - 1]).is_err());
}
