use meeting_monitor::feed::{
    feed_step, feed_url, frame_signal, FeedDirective, FeedEvent, RECONNECT_DELAY_SECS,
};

#[test]
fn frame_with_can_pair_true() {
    let text = "{\"meetingUpdate\":{\"meetingPermissions\":{\"canPair\":true}}}";
    assert_eq!(frame_signal(text), Some(true));
}

#[test]
fn frame_with_can_pair_false() {
    let text = "{\"meetingUpdate\":{\"meetingPermissions\":{\"canPair\":false}}}";
    assert_eq!(frame_signal(text), Some(false));
}

#[test]
fn frame_with_extra_fields_still_extracts() {
    let text = "{\"other\":1,\"meetingUpdate\":{\"x\":null,\"meetingPermissions\":{\"canPair\":true,\"canMute\":false}}}";
    assert_eq!(frame_signal(text), Some(true));
}

#[test]
fn frame_without_field_is_no_signal() {
    assert_eq!(frame_signal("{\"meetingUpdate\":{}}"), None);
    assert_eq!(frame_signal("{}"), None);
    // A value of the wrong type is no signal either.
    assert_eq!(
        frame_signal("{\"meetingUpdate\":{\"meetingPermissions\":{\"canPair\":\"yes\"}}}"),
        None
    );
}

#[test]
fn malformed_frame_is_no_signal() {
    assert_eq!(frame_signal("not json at all"), None);
    assert_eq!(frame_signal(""), None);
    assert_eq!(frame_signal("[1,2,3]"), None);
}

#[test]
fn text_frames_map_to_their_signal() {
    let ev = FeedEvent::TextFrame(
        "{\"meetingUpdate\":{\"meetingPermissions\":{\"canPair\":true}}}".to_string(),
    );
    assert_eq!(feed_step(&ev), FeedDirective::Emit(true));
    let no_signal = FeedEvent::TextFrame("{\"ping\":1}".to_string());
    assert_eq!(feed_step(&no_signal), FeedDirective::Ignore);
}

#[test]
fn connection_events() {
    assert_eq!(feed_step(&FeedEvent::Connected), FeedDirective::LogConnected);
    assert_eq!(feed_step(&FeedEvent::NonTextFrame), FeedDirective::Ignore);
}

#[test]
fn every_failure_reconnects() {
    // An immediately failing connection is retried after the fixed backoff,
    // indefinitely: there is no stopping directive at all.
    assert_eq!(feed_step(&FeedEvent::ConnectFailed), FeedDirective::Reconnect);
    assert_eq!(feed_step(&FeedEvent::StreamError), FeedDirective::Reconnect);
    assert_eq!(feed_step(&FeedEvent::StreamEnded), FeedDirective::Reconnect);
    assert_eq!(feed_step(&FeedEvent::SendFailed), FeedDirective::Reconnect);
    assert_eq!(RECONNECT_DELAY_SECS, 60);
}

#[test]
fn feed_url_is_the_fixed_endpoint() {
    let url = feed_url();
    assert!(url.starts_with("ws://localhost:8124?"));
    assert!(url.contains("protocol-version=2.0.0"));
    assert!(url.contains("manufacturer=FawenYo"));
    assert!(url.contains("device=teams_meeting_monitor"));
    assert!(url.contains("app=Teams Meeting Monitor"));
    assert!(url.contains("app-version=1.0.0"));
}
