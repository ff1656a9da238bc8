use pulsekit::event::{Config, Event, Level, StackFrame};
use pulsekit::json::{encode_event, encode_frame, encode_frames};
use std::collections::HashMap;

#[test]
fn test_event_serialization() {
    let event = Event {
        event_type: "test".to_string(),
        level: Some(Level::Info),
        message: Some("Test message".to_string()),
        ..Default::default()
    };

    let json = encode_event(&event);
    assert!(json.contains("\"type\":\"test\""));
    assert!(json.contains("\"level\":\"info\""));
}

#[test]
fn test_config_default() {
    let config = Config::default();
    assert_eq!(config.batch_size, 10);
    assert_eq!(config.environment, Some("production".to_string()));
}

#[test]
fn config_default_other_fields() {
    let config = Config::default();
    assert_eq!(config.endpoint, "");
    assert_eq!(config.api_key, "");
    assert_eq!(config.release, None);
    assert!(!config.debug);
}

#[test]
fn level_defaults_to_info() {
    assert_eq!(Level::default(), Level::Info);
}

#[test]
fn bare_event_has_only_type_key() {
    let event = Event::with_type("ping");
    assert_eq!(encode_event(&event), "{\"type\":\"ping\"}");
    let event = Event::default();
    assert_eq!(encode_event(&event), "{\"type\":\"\"}");
}

#[test]
fn bare_event_parses_to_single_key_object() {
    let text = encode_event(&Event::with_type("payment.success"));
    let value: serde_json::Value = serde_json::from_str(&text).unwrap();
    let object = value.as_object().unwrap();
    assert_eq!(object.len(), 1);
    assert_eq!(object["type"], "payment.success");
}

#[test]
fn levels_are_lowercase() {
    let names = [
        (Level::Debug, "debug"),
        (Level::Info, "info"),
        (Level::Warning, "warning"),
        (Level::Error, "error"),
        (Level::Fatal, "fatal"),
    ];
    for (level, name) in names {
        let mut event = Event::with_type("t");
        event.level = Some(level);
        assert_eq!(encode_event(&event), format!("{{\"type\":\"t\",\"level\":\"{}\"}}", name));
    }
}

#[test]
fn strings_are_escaped() {
    let mut event = Event::with_type("a\"b");
    event.message = Some("line\nnext \\ end".to_string());
    let text = encode_event(&event);
    assert_eq!(text, "{\"type\":\"a\\\"b\",\"message\":\"line\\nnext \\\\ end\"}");
    let value: serde_json::Value = serde_json::from_str(&text).unwrap();
    assert_eq!(value["message"], "line\nnext \\ end");
}

#[test]
fn all_plain_fields_in_order() {
    let mut event = Event::with_type("t");
    event.level = Some(Level::Warning);
    event.message = Some("m".to_string());
    event.timestamp = Some("ts".to_string());
    event.fingerprint = Some("fp".to_string());
    event.environment = Some("staging".to_string());
    event.release = Some("1.0".to_string());
    assert_eq!(
        encode_event(&event),
        "{\"type\":\"t\",\"level\":\"warning\",\"message\":\"m\",\"timestamp\":\"ts\",\
         \"fingerprint\":\"fp\",\"environment\":\"staging\",\"release\":\"1.0\"}"
    );
}

#[test]
fn frame_with_all_parts() {
    let frame = StackFrame {
        file: Some("src/main.rs".to_string()),
        line: Some(42),
        function: Some("main".to_string()),
    };
    assert_eq!(
        encode_frame(&frame),
        "{\"file\":\"src/main.rs\",\"line\":42,\"function\":\"main\"}"
    );
}

#[test]
fn frame_parts_are_omitted_when_unknown() {
    let frame = StackFrame { file: None, line: None, function: None };
    assert_eq!(encode_frame(&frame), "{}");
    let frame = StackFrame { file: None, line: Some(0), function: None };
    assert_eq!(encode_frame(&frame), "{\"line\":0}");
    let frame = StackFrame { file: None, line: Some(u32::MAX), function: None };
    assert_eq!(encode_frame(&frame), "{\"line\":4294967295}");
}

#[test]
fn frames_array_keeps_order() {
    let frames = vec![
        StackFrame { file: None, line: Some(1), function: None },
        StackFrame { file: None, line: Some(20), function: Some("g".to_string()) },
    ];
    assert_eq!(encode_frames(&frames), "[{\"line\":1},{\"line\":20,\"function\":\"g\"}]");
    assert_eq!(encode_frames(&Vec::new()), "[]");
}

#[test]
fn stacktrace_member() {
    let mut event = Event::with_type("error");
    event.stacktrace = Some(vec![StackFrame { file: Some("a.rs".to_string()), line: None, function: None }]);
    assert_eq!(encode_event(&event), "{\"type\":\"error\",\"stacktrace\":[{\"file\":\"a.rs\"}]}");
}

#[test]
fn tags_and_metadata_members() {
    let mut tags = HashMap::new();
    tags.insert("region".to_string(), "eu".to_string());
    let mut metadata = HashMap::new();
    metadata.insert("count".to_string(), serde_json::Value::from(3));
    let mut event = Event::with_type("t");
    event.tags = Some(tags);
    event.metadata = Some(metadata);
    let text = encode_event(&event);
    assert_eq!(text, "{\"type\":\"t\",\"metadata\":{\"count\":3},\"tags\":{\"region\":\"eu\"}}");
}
