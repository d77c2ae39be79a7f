use delta_command_api::event::{Event, EventType};
use delta_command_api::event_to_json;

fn json(type_id: i32, typ: EventType) -> String {
    event_to_json(Event { type_id, typ })
}

#[test]
fn text_events() {
    assert_eq!(
        json(100, EventType::Info("hello".to_string())),
        "{\"event\":true,\"field1\":\"hello\",\"field2\":null,\"id\":[100]}"
    );
    assert_eq!(
        json(400, EventType::Error("a \"quoted\" word".to_string())),
        "{\"event\":true,\"field1\":\"a \\\"quoted\\\" word\",\"field2\":null,\"id\":[400]}"
    );
}

#[test]
fn number_events() {
    assert_eq!(
        json(2000, EventType::MsgsChanged { chat_id: 12, msg_id: 34 }),
        "{\"event\":true,\"field1\":12,\"field2\":34,\"id\":[2000]}"
    );
    assert_eq!(
        json(2020, EventType::ChatModified(7)),
        "{\"event\":true,\"field1\":7,\"field2\":null,\"id\":[2020]}"
    );
    assert_eq!(
        json(2051, EventType::ImexProgress(1000)),
        "{\"event\":true,\"field1\":1000,\"field2\":null,\"id\":[2051]}"
    );
    assert_eq!(
        json(2061, EventType::SecurejoinJoinerProgress { contact_id: 5, progress: 400 }),
        "{\"event\":true,\"field1\":5,\"field2\":400,\"id\":[2061]}"
    );
}

#[test]
fn optional_fields() {
    assert_eq!(
        json(2030, EventType::ContactsChanged(None)),
        "{\"event\":true,\"field1\":null,\"field2\":null,\"id\":[2030]}"
    );
    assert_eq!(
        json(2035, EventType::LocationChanged(Some(3))),
        "{\"event\":true,\"field1\":3,\"field2\":null,\"id\":[2035]}"
    );
    assert_eq!(
        json(2041, EventType::ConfigureProgress { progress: 0, comment: Some("oops".to_string()) }),
        "{\"event\":true,\"field1\":0,\"field2\":\"oops\",\"id\":[2041]}"
    );
    assert_eq!(
        json(2052, EventType::ImexFileWritten(None)),
        "{\"event\":true,\"field1\":null,\"field2\":null,\"id\":[2052]}"
    );
    assert_eq!(
        json(-1, EventType::ImexFileWritten(Some("/tmp/x".to_string()))),
        "{\"event\":true,\"field1\":\"/tmp/x\",\"field2\":null,\"id\":[-1]}"
    );
}

#[test]
fn events_match_serde_json() {
    let s = json(300, EventType::Warning("tab\there".to_string()));
    let v: serde_json::Value = serde_json::from_str(&s).unwrap();
    assert_eq!(v["event"], serde_json::Value::Bool(true));
    assert_eq!(v["field1"], serde_json::Value::String("tab\there".to_string()));
    assert_eq!(v["field2"], serde_json::Value::Null);
    assert_eq!(v["id"][0], serde_json::Value::from(300));
    assert_eq!(v.to_string(), s);
}
