use push_fanout::notification::Notification;
use push_fanout::notification::NotificationTask;
use push_fanout::wire::encode_task;
use push_fanout::worker::prepare_publish;

fn strings(ids: &[&str]) -> Vec<String> {
    ids.iter().map(|s| s.to_string()).collect()
}

fn full_notification() -> Notification {
    Notification {
        author: "alice".to_string(),
        icon: "icons/alice.png".to_string(),
        image: Some("img/1.png".to_string()),
        body: "hello world".to_string(),
        tag: "dm".to_string(),
        timestamp: 1700000000,
        url: Some("https://example.test/m/1".to_string()),
        message: Some("MSG01".to_string()),
        channel: Some("CH01".to_string()),
    }
}

#[test]
fn body_is_the_exact_wire_json() {
    let task = NotificationTask {
        recipients: strings(&["u1", "u2"]),
        payload: full_notification(),
    };
    let body = encode_task(&task);
    let expected = "{\"notification\":{\"author\":\"alice\",\"icon\":\"icons/alice.png\",\"image\":\"img/1.png\",\"body\":\"hello world\",\"tag\":\"dm\",\"timestamp\":1700000000,\"url\":\"https://example.test/m/1\",\"message\":\"MSG01\",\"channel\":\"CH01\"},\"users\":[\"u1\",\"u2\"]}";
    assert_eq!(String::from_utf8(body).unwrap(), expected);
}

#[test]
fn absent_optional_fields_are_null() {
    let task = NotificationTask {
        recipients: strings(&[]),
        payload: Notification {
            author: "a".to_string(),
            icon: "i".to_string(),
            image: None,
            body: "b".to_string(),
            tag: "t".to_string(),
            timestamp: 0,
            url: None,
            message: None,
            channel: None,
        },
    };
    let body = encode_task(&task);
    let expected = "{\"notification\":{\"author\":\"a\",\"icon\":\"i\",\"image\":null,\"body\":\"b\",\"tag\":\"t\",\"timestamp\":0,\"url\":null,\"message\":null,\"channel\":null},\"users\":[]}";
    assert_eq!(String::from_utf8(body).unwrap(), expected);
}

#[test]
fn text_is_escaped_like_json_asks() {
    let task = NotificationTask {
        recipients: strings(&["u\"1\""]),
        payload: Notification {
            author: "a\\b".to_string(),
            icon: "i".to_string(),
            image: None,
            body: "line1\nline2\ttabbed\u{1}".to_string(),
            tag: "t".to_string(),
            timestamp: 7,
            url: None,
            message: None,
            channel: None,
        },
    };
    let body = String::from_utf8(encode_task(&task)).unwrap();
    assert!(body.contains("\"author\":\"a\\\\b\""));
    assert!(body.contains("\"body\":\"line1\\nline2\\ttabbed\\u0001\""));
    assert!(body.contains("\"users\":[\"u\\\"1\\\"\"]"));
}

#[test]
fn body_parses_as_the_expected_json_value() {
    let task = NotificationTask {
        recipients: strings(&["u1", "u2", "u3"]),
        payload: full_notification(),
    };
    let body = encode_task(&task);
    let v: serde_json::Value = serde_json::from_slice(&body).unwrap();
    let n = &v["notification"];
    assert_eq!(n["author"], serde_json::Value::String("alice".to_string()));
    assert_eq!(n["icon"], serde_json::Value::String("icons/alice.png".to_string()));
    assert_eq!(n["image"], serde_json::Value::String("img/1.png".to_string()));
    assert_eq!(n["body"], serde_json::Value::String("hello world".to_string()));
    assert_eq!(n["tag"], serde_json::Value::String("dm".to_string()));
    assert_eq!(n["timestamp"].as_u64(), Some(1700000000));
    assert_eq!(n["url"], serde_json::Value::String("https://example.test/m/1".to_string()));
    assert_eq!(n["message"], serde_json::Value::String("MSG01".to_string()));
    assert_eq!(n["channel"], serde_json::Value::String("CH01".to_string()));
    let users: Vec<String> = v["users"]
        .as_array()
        .unwrap()
        .iter()
        .map(|u| u.as_str().unwrap().to_string())
        .collect();
    assert_eq!(users, strings(&["u1", "u2", "u3"]));
}

#[test]
fn unicode_text_survives_the_trip() {
    let task = NotificationTask {
        recipients: strings(&["ügur"]),
        payload: Notification {
            author: "Мария".to_string(),
            icon: "i".to_string(),
            image: None,
            body: "héllo ✓".to_string(),
            tag: "t".to_string(),
            timestamp: 1,
            url: None,
            message: None,
            channel: None,
        },
    };
    let body = encode_task(&task);
    let v: serde_json::Value = serde_json::from_slice(&body).unwrap();
    assert_eq!(v["notification"]["author"].as_str(), Some("Мария"));
    assert_eq!(v["notification"]["body"].as_str(), Some("héllo ✓"));
    assert_eq!(v["users"][0].as_str(), Some("ügur"));
}

#[test]
fn largest_timestamp_keeps_all_digits() {
    let task = NotificationTask {
        recipients: strings(&[]),
        payload: Notification {
            author: "a".to_string(),
            icon: "i".to_string(),
            image: None,
            body: "b".to_string(),
            tag: "t".to_string(),
            timestamp: u64::MAX,
            url: None,
            message: None,
            channel: None,
        },
    };
    let body = String::from_utf8(encode_task(&task)).unwrap();
    assert!(body.contains("\"timestamp\":18446744073709551615,"));
}

#[test]
fn publish_is_persistent_structured_data() {
    let task = NotificationTask {
        recipients: strings(&["u1"]),
        payload: full_notification(),
    };
    let request = prepare_publish(&task);
    assert!(request.persistent);
    assert_eq!(request.content_type, "application/json");
    assert_eq!(request.body, encode_task(&task));
}
