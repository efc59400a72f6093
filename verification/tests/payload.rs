use tracing_surreal::tracing_msg::payload::{Payload, Value};
use tracing_surreal::tracing_msg::{Level, Metadata, MsgBody, Parent};

fn text(words: &str) -> Value {
    Value::String(words.to_string())
}

fn entries(payload: &Payload) -> Vec<(&str, &Vec<Value>)> {
    payload.fields().iter().map(|(key, values)| (key.as_str(), values)).collect()
}

#[test]
fn values_are_recorded_under_their_names_in_order() {
    let mut payload = Payload::default();
    assert!(payload.fields().is_empty());
    payload.insert_empty("a");
    payload.insert_empty("b");
    payload.record("b", Value::I64(-1));
    payload.record("c", Value::Bool(true));
    payload.record("a", Value::U64(7));
    payload.record("b", Value::F64(1.5f64.to_bits()));
    payload.insert_empty("b");
    assert_eq!(
        entries(&payload),
        vec![
            ("a", &vec![Value::U64(7)]),
            ("b", &vec![Value::I64(-1), Value::F64(0x3FF8_0000_0000_0000)]),
            ("c", &vec![Value::Bool(true)]),
        ]
    );
    let map = payload.into_fields();
    assert_eq!(map.get_index_of("c"), Some(2));
}

#[test]
fn texts_are_recorded_without_nulls() {
    assert_eq!(text("a\0b\0\0c").nulls_removed(), text("abc"));
    assert_eq!(Value::Debug("\0".to_string()).nulls_removed(), Value::Debug(String::new()));
    assert_eq!(Value::Error("x\0".to_string()).nulls_removed(), Value::Error("x".to_string()));
    assert_eq!(Value::Bytes(vec![0, 1]).nulls_removed(), Value::Bytes(vec![0, 1]));
    assert_eq!(Value::I128(0).nulls_removed(), Value::I128(0));
    let mut payload = Payload::default();
    payload.record_field("k", text("\0v\0"));
    payload.record("k", text("\0"));
    assert_eq!(entries(&payload), vec![("k", &vec![text("v"), text("\0")])]);
}

#[test]
fn only_texts_have_a_text() {
    assert_eq!(text("s").get_text(), Some("s".to_string()));
    assert_eq!(Value::Debug("d".to_string()).get_text(), Some("d".to_string()));
    assert_eq!(Value::Error("e".to_string()).get_text(), Some("e".to_string()));
    assert_eq!(Value::Bytes(vec![b'x']).get_text(), None);
    assert_eq!(Value::U128(1).get_text(), None);
    assert_eq!(Value::Bool(false).get_text(), None);
}

#[test]
fn the_message_is_the_first_text_under_its_name() {
    let mut payload = Payload::default();
    assert_eq!(payload.message(), None);
    payload.insert_empty("message");
    assert_eq!(payload.message(), None);
    payload.record("other", text("no"));
    payload.record("message", text("first"));
    payload.record("message", text("second"));
    assert_eq!(payload.message(), Some("first".to_string()));

    let mut payload = Payload::default();
    payload.record("message", Value::I64(3));
    payload.record("message", text("late"));
    assert_eq!(payload.message(), None);
}

fn metadata() -> Metadata {
    Metadata {
        level: Level::Warn,
        name: "event".to_string(),
        target: "t".to_string(),
        module: None,
        file: None,
        line: None,
    }
}

#[test]
fn an_event_says_what_its_fields_say() {
    let mut payload = Payload::default();
    payload.record("message", text("hello"));
    payload.record("n", Value::U64(1));
    let body = MsgBody::on_event(metadata(), Parent::Current, payload);
    match body {
        MsgBody::OnEvent { message, level, parent, payload, name, target, module, file, line } => {
            assert_eq!(message, "hello");
            assert_eq!((level, parent), (Level::Warn, Parent::Current));
            assert_eq!((name.as_str(), target.as_str()), ("event", "t"));
            assert_eq!((module, file, line), (None, None, None));
            assert_eq!(payload.fields().len(), 2);
        }
        other => panic!("{other:?}"),
    }
    let body = MsgBody::on_event(metadata(), Parent::Root, Payload::default());
    assert!(matches!(body, MsgBody::OnEvent { message, parent: Parent::Root, .. } if message.is_empty()));
}
