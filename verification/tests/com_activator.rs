use tauri_plugin_notification::com_activator::{
    activation_event, next_attempt, parse_guid, parse_guid_would_panic, route_activation,
    validate_threading_model, ActivationRoute, GuidParseError, ThreadingModel,
};
use tauri_plugin_notification::input_map::InputEntry;

#[test]
fn lenient_guid_accepts_spaces_and_braces() {
    let g = parse_guid("  {A3B4C5D6-E7F8-9012-ABCD-EF0123456789}  ").unwrap();
    assert_eq!(g.data1, 0xA3B4C5D6);
    assert_eq!(g.data2, 0xE7F8);
    assert_eq!(g.data3, 0x9012);
    assert_eq!(g.data4, [0xAB, 0xCD, 0xEF, 0x01, 0x23, 0x45, 0x67, 0x89]);
}

#[test]
fn lenient_guid_accepts_short_first_groups() {
    let g = parse_guid("1-2-3-ABCD-EF0123456789").unwrap();
    assert_eq!(g.data1, 1);
    assert_eq!(g.data2, 2);
    assert_eq!(g.data3, 3);
}

#[test]
fn lenient_guid_errors_name_the_field() {
    assert_eq!(parse_guid("default").unwrap_err(), GuidParseError::Format);
    assert_eq!(parse_guid("x-0-0-0000-000000000000").unwrap_err(), GuidParseError::Data1);
    assert_eq!(parse_guid("100000000-0-0-0000-000000000000").unwrap_err(), GuidParseError::Data1);
    assert_eq!(parse_guid("0-10000-0-0000-000000000000").unwrap_err(), GuidParseError::Data2);
    assert_eq!(parse_guid("0-0--0000-000000000000").unwrap_err(), GuidParseError::Data3);
    assert_eq!(parse_guid("0-0-0-000-000000000000").unwrap_err(), GuidParseError::Data4Length);
    assert_eq!(parse_guid("0-0-0-00g0-000000000000").unwrap_err(), GuidParseError::Data4Byte);
}

#[test]
fn lenient_guid_keeps_dashes_in_the_last_group() {
    assert_eq!(parse_guid("0-0-0-0000-0000-0000000").unwrap_err(), GuidParseError::Data4Byte);
}

#[test]
fn lenient_guid_panic_check() {
    assert!(parse_guid_would_panic("0-0-0-a\u{e9}a-000000000000"));
    assert!(!parse_guid_would_panic("0-0-0-0000-000000000000"));
}

#[test]
fn activation_inputs_are_the_user_inputs_only() {
    let inputs = vec![
        InputEntry { key: "box".into(), value: "typed".into() },
        InputEntry { key: "other".into(), value: "x".into() },
    ];
    let e = activation_event("action=send&tag=t&box=url&extra=1", &inputs);
    assert_eq!(e.action_id, "send");
    assert_eq!(e.tag.as_deref(), Some("t"));
    assert_eq!(e.inputs.get("box").map(|s| s.as_str()), Some("typed"));
    assert_eq!(e.inputs.get("other").map(|s| s.as_str()), Some("x"));
    assert!(!e.inputs.contains_key("extra"));
}

#[test]
fn background_launch_enqueues_with_a_fresh_id() {
    let e = activation_event("action=a", &[]);
    match route_activation(e, true) {
        ActivationRoute::Enqueue { id, event } => {
            assert_eq!(id.len(), 36);
            let c: Vec<char> = id.chars().collect();
            for (i, ch) in c.iter().enumerate() {
                if [8, 13, 18, 23].contains(&i) {
                    assert_eq!(*ch, '-');
                } else {
                    assert!(ch.is_ascii_digit() || ('a'..='f').contains(ch));
                }
            }
            assert_eq!(c[14], '4');
            assert!(['8', '9', 'a', 'b'].contains(&c[19]));
            assert_eq!(event.action_id, "a");
        }
        other => panic!("unexpected {other:?}"),
    }
    let e = activation_event("action=b", &[]);
    assert!(matches!(route_activation(e, false), ActivationRoute::Dispatch { .. }));
}

#[test]
fn retries_stop_after_the_limit() {
    assert_eq!(next_attempt(0, 3), Some(1));
    assert_eq!(next_attempt(1, 3), Some(2));
    assert_eq!(next_attempt(2, 3), None);
    assert_eq!(next_attempt(0, 0), None);
}

#[test]
fn threading_model_must_match() {
    assert!(validate_threading_model(ThreadingModel::STA, ThreadingModel::STA).is_ok());
    assert!(validate_threading_model(ThreadingModel::MTA, ThreadingModel::STA).is_err());
}
