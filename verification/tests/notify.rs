use meeting_monitor::notify::{is_success_status, json_escape, NotificationPayload};

#[test]
fn payload_json_status_true() {
    let p = NotificationPayload::new(
        "alice".to_string(),
        "http://example.com/icon.png".to_string(),
        true,
    );
    assert_eq!(
        p.to_json(),
        "{\"user\":\"alice\",\"user_icon_url\":\"http://example.com/icon.png\",\"meeting_status\":true}"
    );
}

#[test]
fn payload_json_status_false() {
    let p = NotificationPayload::new("user".to_string(), "".to_string(), false);
    assert_eq!(
        p.to_json(),
        "{\"user\":\"user\",\"user_icon_url\":\"\",\"meeting_status\":false}"
    );
}

#[test]
fn escape_passes_plain_text_through() {
    assert_eq!(json_escape("alice"), "alice");
    assert_eq!(json_escape(""), "");
    assert_eq!(json_escape("héllo✓"), "héllo✓");
}

#[test]
fn escape_quotes_and_backslashes() {
    assert_eq!(json_escape("a\"b\\c"), "a\\\"b\\\\c");
}

#[test]
fn escape_control_characters() {
    assert_eq!(json_escape("a\nb"), "a\\u000ab");
    assert_eq!(json_escape("\t"), "\\u0009");
    assert_eq!(json_escape("\u{1f}"), "\\u001f");
    assert_eq!(json_escape("\u{0}"), "\\u0000");
}

#[test]
fn payload_round_trips_through_a_json_parser() {
    // The encoded body must parse back to exactly the fields that went in,
    // however awkward the strings.
    let name = "a\"b\\c\nd\u{1}";
    let icon = "https://example.com/x?y=\"z\"";
    let p = NotificationPayload::new(name.to_string(), icon.to_string(), true);
    let body = p.to_json();
    let v: serde_json::Value = serde_json::from_str(&body).expect("body must be valid JSON");
    assert_eq!(v["user"].as_str(), Some(name));
    assert_eq!(v["user_icon_url"].as_str(), Some(icon));
    assert_eq!(v["meeting_status"].as_bool(), Some(true));
}

#[test]
fn success_is_exactly_the_2xx_class() {
    assert!(!is_success_status(199));
    assert!(is_success_status(200));
    assert!(is_success_status(204));
    assert!(is_success_status(299));
    assert!(!is_success_status(300));
    assert!(!is_success_status(404));
    assert!(!is_success_status(500));
}
