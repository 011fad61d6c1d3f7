use fcm_http1::notification::NotificationBuilder;
use fcm_http1::{FCMRequestBuilder, Priority};

fn sobj(entries: Vec<(&str, serde_json::Value)>) -> serde_json::Value {
    let mut m = serde_json::Map::new();
    for (k, v) in entries {
        m.insert(k.to_string(), v);
    }
    serde_json::Value::Object(m)
}

fn sstr(s: &str) -> serde_json::Value {
    serde_json::Value::String(s.to_string())
}

#[test]
fn should_create_new_message() {
    let msg = FCMRequestBuilder::new("api_key", "project", "token", None).finalize();

    assert_eq!(msg.body.message.topic, Some("token".to_string()));
}

#[test]
fn should_leave_nones_out_of_the_json() {
    let msg = FCMRequestBuilder::new("api_key", "project", "token", None).finalize();
    let payload = msg.body.to_json_string();

    let expected_value = sobj(vec![
        ("validate_only", serde_json::Value::Bool(false)),
        ("message", sobj(vec![("topic", sstr("token"))])),
    ]);

    let actual_value: serde_json::Value = serde_json::from_str(&payload).unwrap();

    assert_eq!(expected_value, actual_value);
}

#[test]
fn should_add_custom_data_to_the_payload() {
    let mut builder = FCMRequestBuilder::new("api_key", "project", "token", None);

    let data = sobj(vec![
        ("foo", sstr("bar")),
        ("bar", serde_json::Value::Bool(false)),
    ]);

    builder.data(&data);

    let msg = builder.finalize();
    let payload = msg.body.to_json_string();

    let expected_value = sobj(vec![
        (
            "message",
            sobj(vec![
                (
                    "data",
                    sobj(vec![
                        ("foo", sstr("bar")),
                        ("bar", serde_json::Value::Bool(false)),
                    ]),
                ),
                ("topic", sstr("token")),
            ]),
        ),
        ("validate_only", serde_json::Value::Bool(false)),
    ]);

    let actual_value: serde_json::Value = serde_json::from_str(&payload).unwrap();

    assert_eq!(expected_value, actual_value);
}

#[test]
fn should_be_able_to_render_a_full_message_to_json() {
    let mut builder = FCMRequestBuilder::new("api_key", "project", "token", None);

    builder.registration_ids(&vec!["one".to_string(), "two".to_string()]);
    builder.collapse_key("foo");
    builder.priority(Priority::High);
    builder.content_available(false);
    builder.delay_while_idle(true);
    builder.time_to_live(420);
    builder.restricted_package_name("pkg");
    builder.notification(NotificationBuilder::new().finalize());

    let payload = builder.finalize().body.to_json_string();

    let expected_value = sobj(vec![
        (
            "message",
            sobj(vec![
                ("topic", sstr("token")),
                (
                    "registration_ids",
                    serde_json::Value::Array(vec![sstr("one"), sstr("two")]),
                ),
                ("collapse_key", sstr("foo")),
                ("priority", sstr("high")),
                ("content_available", serde_json::Value::Bool(false)),
                ("delay_while_idle", serde_json::Value::Bool(true)),
                ("time_to_live", serde_json::Value::from(420i64)),
                ("restricted_package_name", sstr("pkg")),
                ("notification", sobj(vec![])),
            ]),
        ),
        ("validate_only", serde_json::Value::Bool(false)),
    ]);

    let actual_value: serde_json::Value = serde_json::from_str(&payload).unwrap();

    assert_eq!(expected_value, actual_value);
}

#[test]
fn should_set_registration_ids() {
    let msg = FCMRequestBuilder::new("api_key", "project", "token", None).finalize();

    assert_eq!(msg.body.message.registration_ids, None);

    let mut builder = FCMRequestBuilder::new("api_key", "project", "token", None);
    builder.registration_ids(&vec!["id1".to_string()]);
    let msg = builder.finalize();

    assert_eq!(msg.body.message.registration_ids, Some(vec!["id1".to_string()]));
}

#[test]
fn should_set_collapse_key() {
    let msg = FCMRequestBuilder::new("api_key", "project", "token", None).finalize();

    assert_eq!(msg.body.message.collapse_key, None);

    let mut builder = FCMRequestBuilder::new("api_key", "project", "token", None);
    builder.collapse_key("key");
    let msg = builder.finalize();

    assert_eq!(msg.body.message.collapse_key, Some("key".to_string()));
}

#[test]
fn should_set_priority() {
    let msg = FCMRequestBuilder::new("api_key", "project", "token", None).finalize();

    assert_eq!(msg.body.message.priority, None);

    let mut builder = FCMRequestBuilder::new("api_key", "project", "token", None);
    builder.priority(Priority::Normal);
    let msg = builder.finalize();

    assert_eq!(msg.body.message.priority, Some(Priority::Normal));
}

#[test]
fn should_set_content_available() {
    let msg = FCMRequestBuilder::new("api_key", "project", "token", None).finalize();

    assert_eq!(msg.body.message.content_available, None);

    let mut builder = FCMRequestBuilder::new("api_key", "project", "token", None);
    builder.content_available(true);
    let msg = builder.finalize();

    assert_eq!(msg.body.message.content_available, Some(true));
}

#[test]
fn should_set_mutable_content() {
    let msg = FCMRequestBuilder::new("api_key", "project", "token", None).finalize();

    assert_eq!(msg.body.message.mutable_content, None);

    let mut builder = FCMRequestBuilder::new("api_key", "project", "token", None);
    builder.mutable_content(true);
    let msg = builder.finalize();

    assert_eq!(msg.body.message.mutable_content, Some(true));
}

#[test]
fn should_set_delay_while_idle() {
    let msg = FCMRequestBuilder::new("api_key", "project", "token", None).finalize();

    assert_eq!(msg.body.message.delay_while_idle, None);

    let mut builder = FCMRequestBuilder::new("api_key", "project", "token", None);
    builder.delay_while_idle(true);
    let msg = builder.finalize();

    assert_eq!(msg.body.message.delay_while_idle, Some(true));
}

#[test]
fn should_set_time_to_live() {
    let msg = FCMRequestBuilder::new("api_key", "project", "token", None).finalize();

    assert_eq!(msg.body.message.time_to_live, None);

    let mut builder = FCMRequestBuilder::new("api_key", "project", "token", None);
    builder.time_to_live(10);
    let msg = builder.finalize();

    assert_eq!(msg.body.message.time_to_live, Some(10));
}

#[test]
fn should_set_restricted_package_name() {
    let msg = FCMRequestBuilder::new("api_key", "project", "token", None).finalize();

    assert_eq!(msg.body.message.restricted_package_name, None);

    let mut builder = FCMRequestBuilder::new("api_key", "project", "token", None);
    builder.restricted_package_name("name");
    let msg = builder.finalize();

    assert_eq!(msg.body.message.restricted_package_name, Some("name".to_string()));
}

#[test]
fn should_set_dry_run() {
    let msg = FCMRequestBuilder::new("api_key", "project", "token", Some(true)).finalize();

    assert_eq!(msg.body.validate_only, true);
}

#[test]
fn should_set_notifications() {
    let msg = FCMRequestBuilder::new("api_key", "project", "token", None).finalize();

    assert_eq!(msg.body.message.notification, None);

    let nm = NotificationBuilder::new().finalize();

    let mut builder = FCMRequestBuilder::new("api_key", "project", "token", None);
    builder.notification(nm);
    let msg = builder.finalize();

    assert!(msg.body.message.notification != None);
}
