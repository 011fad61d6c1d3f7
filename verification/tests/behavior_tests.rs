use fcm_http1::client::handle_response;
use fcm_http1::notification::NotificationBuilder;
use fcm_http1::{FCMRequestBuilder, FcmError, Priority};

fn sobj(entries: Vec<(&str, serde_json::Value)>) -> serde_json::Value {
    let mut m = serde_json::Map::new();
    for (k, v) in entries {
        m.insert(k.to_string(), v);
    }
    serde_json::Value::Object(m)
}

fn sstr(s: &str) -> serde_json::Value {
    serde_json::Value::String(s.to_string())
}

#[test]
fn priority_normal_renders_lowercase() {
    let mut builder = FCMRequestBuilder::new("api_key", "project", "token", None);
    builder.priority(Priority::Normal);
    let payload = builder.finalize().body.to_json_string();

    let actual: serde_json::Value = serde_json::from_str(&payload).unwrap();
    let expected = sobj(vec![
        ("validate_only", serde_json::Value::Bool(false)),
        (
            "message",
            sobj(vec![("topic", sstr("token")), ("priority", sstr("normal"))]),
        ),
    ]);
    assert_eq!(expected, actual);
}

#[test]
fn priority_high_renders_lowercase() {
    let mut builder = FCMRequestBuilder::new("api_key", "project", "token", None);
    builder.priority(Priority::High);
    let payload = builder.finalize().body.to_json_string();

    let actual: serde_json::Value = serde_json::from_str(&payload).unwrap();
    assert_eq!(
        actual.get("message").unwrap().get("priority").unwrap(),
        &sstr("high")
    );
}

#[test]
fn validate_only_keeps_supplied_value() {
    let msg = FCMRequestBuilder::new("api_key", "project", "token", Some(false)).finalize();
    assert_eq!(msg.body.validate_only, false);

    let msg = FCMRequestBuilder::new("api_key", "project", "token", Some(true)).finalize();
    let payload = msg.body.to_json_string();
    let actual: serde_json::Value = serde_json::from_str(&payload).unwrap();
    assert_eq!(
        actual.get("validate_only").unwrap(),
        &serde_json::Value::Bool(true)
    );
}

#[test]
fn setting_a_field_twice_keeps_the_later_value() {
    let mut builder = FCMRequestBuilder::new("api_key", "project", "token", None);
    builder.collapse_key("first");
    builder.collapse_key("second");
    builder.time_to_live(10);
    builder.time_to_live(20);
    builder.priority(Priority::Normal);
    builder.priority(Priority::High);
    let msg = builder.finalize();

    assert_eq!(msg.body.message.collapse_key, Some("second".to_string()));
    assert_eq!(msg.body.message.time_to_live, Some(20));
    assert_eq!(msg.body.message.priority, Some(Priority::High));
}

#[test]
fn new_multi_targets_registration_ids() {
    let ids = vec!["one".to_string(), "two".to_string()];
    let msg = FCMRequestBuilder::new_multi("api_key", "project", &ids, None).finalize();

    assert_eq!(msg.body.message.topic, None);
    assert_eq!(msg.body.message.registration_ids, Some(ids));

    let payload = msg.body.to_json_string();
    let actual: serde_json::Value = serde_json::from_str(&payload).unwrap();
    let expected = sobj(vec![
        ("validate_only", serde_json::Value::Bool(false)),
        (
            "message",
            sobj(vec![(
                "registration_ids",
                serde_json::Value::Array(vec![sstr("one"), sstr("two")]),
            )]),
        ),
    ]);
    assert_eq!(expected, actual);
}

#[test]
fn empty_registration_ids_render_as_empty_array() {
    let mut builder = FCMRequestBuilder::new("api_key", "project", "token", None);
    builder.registration_ids(&vec![]);
    let payload = builder.finalize().body.to_json_string();

    let actual: serde_json::Value = serde_json::from_str(&payload).unwrap();
    assert_eq!(
        actual.get("message").unwrap().get("registration_ids").unwrap(),
        &serde_json::Value::Array(vec![])
    );
}

#[test]
fn notification_fields_render_and_absent_ones_are_left_out() {
    let mut nb = NotificationBuilder::new();
    nb.title("Hey!");
    nb.body("Do you want to catch up later?");
    nb.badge("7");
    nb.body_loc_args(vec!["a".to_string(), "b".to_string()]);
    let notification = nb.finalize();

    let mut builder = FCMRequestBuilder::new("api_key", "project", "token", None);
    builder.notification(notification);
    let payload = builder.finalize().body.to_json_string();

    let actual: serde_json::Value = serde_json::from_str(&payload).unwrap();
    let rendered = actual.get("message").unwrap().get("notification").unwrap();
    let expected = sobj(vec![
        ("title", sstr("Hey!")),
        ("body", sstr("Do you want to catch up later?")),
        ("badge", sstr("7")),
        (
            "body_loc_args",
            serde_json::Value::Array(vec![sstr("a"), sstr("b")]),
        ),
    ]);
    assert_eq!(&expected, rendered);
}

#[test]
fn non_2xx_response_yields_http_error_with_status() {
    let r = handle_response(503, "unavailable".to_string());
    match r {
        Err(FcmError::Http { status, body }) => {
            assert_eq!(status, 503);
            assert_eq!(body, "unavailable".to_string());
        }
        _ => panic!("expected an http error"),
    }

    let r = handle_response(404, "{}".to_string());
    assert!(matches!(r, Err(FcmError::Http { status: 404, .. })));
}

#[test]
fn success_response_is_parsed_into_fields() {
    let body = "{\"multicast_id\":216,\"success\":3,\"failure\":1,\"canonical_ids\":1,\
                \"results\":[{\"message_id\":\"1:0408\"},{\"error\":\"Unavailable\"},\
                {\"message_id\":\"1:1516\",\"registration_id\":\"32\"}]}";
    let r = handle_response(200, body.to_string()).unwrap();

    assert_eq!(r.multicast_id, Some(216));
    assert_eq!(r.success, Some(3));
    assert_eq!(r.failure, Some(1));
    assert_eq!(r.canonical_ids, Some(1));
    assert_eq!(r.message_id, None);

    let results = r.results.unwrap();
    assert_eq!(results.len(), 3);
    assert_eq!(results[0].message_id, Some("1:0408".to_string()));
    assert_eq!(results[0].error, None);
    assert_eq!(results[1].error, Some("Unavailable".to_string()));
    assert_eq!(results[2].registration_id, Some("32".to_string()));
}

#[test]
fn malformed_success_body_yields_parse_error() {
    let r = handle_response(200, "not json at all".to_string());
    assert_eq!(r, Err(FcmError::ResponseParse));
}
