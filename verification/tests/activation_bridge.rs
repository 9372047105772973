use tauri_plugin_notification::activation_bridge::{
    parse_activation_uri, parse_background_args, parse_foreground_args, to_action_event, unescape,
    ActivationEvent, ActivationSource,
};
use tauri_plugin_notification::input_map::InputMap;
use tauri_plugin_notification::models::NotificationActionEvent;

// ── parse_activation_uri ─────────────────────────────────────────────

#[test]
fn full_uri_parsed() {
    let e = parse_activation_uri("myapp://notification?action=reply&tag=msg-1&group=chat");
    assert_eq!(e.action_id, "reply");
    assert_eq!(e.tag.as_deref(), Some("msg-1"));
    assert_eq!(e.group.as_deref(), Some("chat"));
    assert_eq!(e.source, ActivationSource::DeepLink);
}

#[test]
fn raw_query_string_parsed() {
    let e = parse_activation_uri("action=dismiss&tag=t1");
    assert_eq!(e.action_id, "dismiss");
    assert_eq!(e.tag.as_deref(), Some("t1"));
}

#[test]
fn uri_without_query_gives_empty_action() {
    let e = parse_activation_uri("myapp://notification");
    assert!(e.action_id.is_empty());
    assert!(e.tag.is_none());
}

#[test]
fn plain_action_id_parsed() {
    let e = parse_activation_uri("dismiss");
    assert_eq!(e.action_id, "dismiss");
}

#[test]
fn empty_string_gives_empty_event() {
    let e = parse_activation_uri("");
    assert!(e.action_id.is_empty());
    assert!(e.tag.is_none());
    assert!(e.group.is_none());
}

// ── source tagging ───────────────────────────────────────────────────

#[test]
fn background_args_source() {
    let e = parse_background_args("action=snooze&tag=alarm-1");
    assert_eq!(e.source, ActivationSource::Background);
}

#[test]
fn foreground_args_source() {
    let e = parse_foreground_args("action=open");
    assert_eq!(e.source, ActivationSource::Foreground);
}

// ── body-tap ─────────────────────────────────────────────────────────

#[test]
fn body_tap_background_produces_empty_action_id() {
    let ev = parse_background_args("tag=msg-123&group=chat");
    assert_eq!(ev.action_id, "", "body-tap must have empty action_id");
    assert_eq!(ev.tag.as_deref(), Some("msg-123"));
    assert_eq!(ev.group.as_deref(), Some("chat"));
}

#[test]
fn body_tap_foreground_produces_empty_action_id() {
    let ev = parse_foreground_args("tag=msg-123");
    assert_eq!(ev.action_id, "");
    assert_eq!(ev.source, ActivationSource::Foreground);
}

// ── button click ─────────────────────────────────────────────────────

#[test]
fn button_click_recovers_action_id() {
    let ev = parse_background_args("action=reply&tag=msg-1&group=chat");
    assert_eq!(ev.action_id, "reply");
    assert_eq!(ev.tag.as_deref(), Some("msg-1"));
    assert_eq!(ev.group.as_deref(), Some("chat"));
}

#[test]
fn missing_tag_and_group_are_none() {
    let ev = parse_background_args("action=dismiss");
    assert_eq!(ev.action_id, "dismiss");
    assert!(ev.tag.is_none());
    assert!(ev.group.is_none());
}

#[test]
fn empty_args_gives_body_tap_with_no_tag_group() {
    let ev = parse_background_args("");
    assert_eq!(ev.action_id, "");
    assert!(ev.tag.is_none());
    assert!(ev.group.is_none());
}

// ── inputs ───────────────────────────────────────────────────────────

#[test]
fn inputs_are_empty_before_com_merge() {
    // COM path — inputs arrive via NOTIFICATION_USER_INPUT_DATA, not here
    let ev = parse_background_args("action=send&tag=t");
    assert!(ev.inputs.is_empty());
}

#[test]
fn extra_params_become_inputs_on_deep_link_path() {
    // Deep-link path — inline reply text arrives in the URL query string
    let e = parse_activation_uri("action=send&tag=t1&replyBox=Hello+World");
    assert_eq!(e.action_id, "send");
    assert!(
        e.inputs.contains_key("replyBox"),
        "extra query params must land in inputs"
    );
}

// ── unescape / percent decode ─────────────────────────────────────────

#[test]
fn percent_encoded_space() {
    assert_eq!(unescape("hello%20world"), "hello world");
}

#[test]
fn xml_entities_decoded() {
    assert_eq!(unescape("a&amp;b"), "a&b");
    assert_eq!(unescape("&lt;tag&gt;"), "<tag>");
}

#[test]
fn value_containing_equals_not_split() {
    // splitn(2) must stop at first '='; value may contain further '='
    let e = parse_background_args("action=a=b=c");
    assert_eq!(e.action_id, "a=b=c");
}

#[test]
fn empty_segments_skipped() {
    let e = parse_background_args("&action=tap&&tag=x&");
    assert_eq!(e.action_id, "tap");
    assert_eq!(e.tag.as_deref(), Some("x"));
}

// ── From<NotificationActionEvent> ────────────────────────────────────

#[test]
fn from_action_event_sets_background_source() {
    let e = NotificationActionEvent {
        action_id: "dismiss".into(),
        inputs: InputMap::new(),
        tag: Some("t1".into()),
        group: None,
    };
    let ae = ActivationEvent::from(e);
    assert_eq!(ae.action_id, "dismiss");
    assert_eq!(ae.source, ActivationSource::Background);
    assert_eq!(ae.tag.as_deref(), Some("t1"));
}

// ── serde ─────────────────────────────────────────────────────────────

#[test]
fn to_action_event_round_trip() {
    let ae = ActivationEvent {
        action_id: "reply".into(),
        inputs: InputMap::new(),
        tag: Some("t1".into()),
        group: Some("g1".into()),
        source: ActivationSource::DeepLink,
    };
    let ev = to_action_event(ae);
    assert_eq!(ev.action_id, "reply");
    assert_eq!(ev.tag.as_deref(), Some("t1"));
    assert_eq!(ev.group.as_deref(), Some("g1"));
}

// ── Full round-trips ──────────────────────────────────────────────────

#[test]
fn full_round_trip_background_button_with_tag_and_group() {
    // xml_builder encodes: arguments="action=reply&amp;tag=msg-1&amp;group=chat"
    // Windows un-escapes &amp; → & before delivering to Activate()
    let windows_delivered = "action=reply&tag=msg-1&group=chat";

    let parsed = parse_background_args(windows_delivered);
    // Simulate COM activator merging NOTIFICATION_USER_INPUT_DATA
    let mut inputs = parsed.inputs.clone();
    inputs.insert("textBox".to_string(), "Hi there".to_string());

    let merged = ActivationEvent { inputs, ..parsed };
    let action = to_action_event(merged);

    assert_eq!(action.action_id, "reply");
    assert_eq!(action.tag.as_deref(), Some("msg-1"));
    assert_eq!(action.group.as_deref(), Some("chat"));
    assert_eq!(action.inputs.get("textBox").map(|s| s.as_str()), Some("Hi there"));
}

#[test]
fn full_round_trip_deep_link_body_tap() {
    // xml_builder encodes launch="tag=msg-999"
    // tauri-plugin-deep-link surfaces: myapp://notification?tag=msg-999
    let url = "myapp://notification?tag=msg-999";
    let action = to_action_event(parse_activation_uri(url));
    assert_eq!(action.action_id, "", "body-tap must have empty action_id");
    assert_eq!(action.tag.as_deref(), Some("msg-999"));
    assert!(action.group.is_none());
}

#[test]
fn full_round_trip_foreground_button() {
    let url = "myapp://notification?action=open&tag=alert-42";
    let ev = parse_activation_uri(url);
    assert_eq!(ev.source, ActivationSource::DeepLink);
    let action = to_action_event(ev);
    assert_eq!(action.action_id, "open");
    assert_eq!(action.tag.as_deref(), Some("alert-42"));
}

// ── More decoding ─────────────────────────────────────────────────────────

#[test]
fn percent_decoding_needs_two_hex_digits() {
    assert_eq!(unescape("100%"), "100%");
    assert_eq!(unescape("%zz"), "%zz");
    assert_eq!(unescape("%4"), "%4");
    assert_eq!(unescape("%41%42"), "AB");
    assert_eq!(unescape("%4a%4A"), "JJ");
}

#[test]
fn percent_at_end_is_decoded_when_complete() {
    assert_eq!(unescape("a%20"), "a ");
}

#[test]
fn non_ascii_bytes_become_latin1_characters() {
    // U+00E9 is sent as the two bytes C3 A9, each decoded on its own.
    assert_eq!(unescape("é"), "\u{c3}\u{a9}");
}

#[test]
fn percent_decoding_happens_before_entities() {
    assert_eq!(unescape("%26amp;"), "&");
}

#[test]
fn keys_and_values_are_trimmed() {
    let e = parse_background_args(" action = go & tag = t ");
    assert_eq!(e.action_id, "go");
    assert_eq!(e.tag.as_deref(), Some("t"));
}

#[test]
fn later_duplicate_key_wins() {
    let e = parse_background_args("action=a&action=b");
    assert_eq!(e.action_id, "b");
}

#[test]
fn empty_tag_value_becomes_none() {
    let e = parse_foreground_args("action=x&tag=&group=");
    assert!(e.tag.is_none());
    assert!(e.group.is_none());
}

#[test]
fn key_without_value_becomes_empty_input() {
    let e = parse_activation_uri("action=a&flag");
    assert_eq!(e.inputs.get("flag").map(|s| s.as_str()), Some(""));
}

#[test]
fn uri_query_starts_after_first_question_mark() {
    let e = parse_activation_uri("app://x?action=a?b");
    assert_eq!(e.action_id, "a?b");
}

#[test]
fn plain_id_is_unescaped() {
    let e = parse_background_args("say%20hi");
    assert_eq!(e.action_id, "say hi");
}

#[test]
fn all_three_paths_agree_but_for_the_source() {
    let q = "action=reply&tag=t&group=g&box=hi";
    let a = parse_foreground_args(q);
    let b = parse_background_args(q);
    let c = parse_activation_uri(q);
    for e in [&a, &b, &c] {
        assert_eq!(e.action_id, "reply");
        assert_eq!(e.tag.as_deref(), Some("t"));
        assert_eq!(e.group.as_deref(), Some("g"));
    }
    for e in [&a, &c] {
        assert_eq!(e.inputs.get("box").map(|s| s.as_str()), Some("hi"));
        assert!(!e.inputs.contains_key("action"));
    }
    assert!(b.inputs.is_empty());
    assert_eq!(a.source, ActivationSource::Foreground);
    assert_eq!(b.source, ActivationSource::Background);
    assert_eq!(c.source, ActivationSource::DeepLink);
}
