use std::sync::{Arc, Mutex};
use tauri_plugin_notification::action_handler::{
    dispatch, DispatchStep, register_background_handler, start_relay, HandlerSlot, EVENT_NAME,
};
use tauri_plugin_notification::input_map::InputMap;
use tauri_plugin_notification::models::NotificationActionEvent;

type Handler = Box<dyn Fn(NotificationActionEvent) + Send + Sync>;

fn make_event(id: &str) -> NotificationActionEvent {
    NotificationActionEvent {
        action_id: id.to_string(),
        inputs: InputMap::new(),
        tag: None,
        group: None,
    }
}

#[test]
fn event_name_is_correct() {
    assert_eq!(EVENT_NAME, "notification://action");
}

#[test]
fn register_handler_twice_is_noop() {
    let mut slot: HandlerSlot<Handler> = HandlerSlot::new();
    let first = Arc::new(Mutex::new(0));
    let f = first.clone();
    register_background_handler(&mut slot, Box::new(move |_| *f.lock().unwrap() += 1));
    register_background_handler(&mut slot, Box::new(|_| panic!("second handler must not be kept")));
    (slot.get().unwrap())(make_event("x"));
    assert_eq!(*first.lock().unwrap(), 1);
}

#[test]
fn dispatch_does_not_panic_when_nothing_registered() {
    let plan = dispatch(true, false, false);
    assert!(!plan.call_handler);
    assert!(!plan.send_to_relay);
    assert!(plan.warn_dropped);
}

#[test]
fn background_handler_receives_event() {
    let received: Arc<Mutex<Vec<String>>> = Arc::new(Mutex::new(Vec::new()));
    let rx = received.clone();
    let mut slot: HandlerSlot<Handler> = HandlerSlot::new();
    register_background_handler(&mut slot, Box::new(move |ev| rx.lock().unwrap().push(ev.action_id)));
    let plan = dispatch(true, slot.is_registered(), false);
    assert!(plan.call_handler);
    assert!(!plan.warn_dropped);
    if plan.call_handler {
        (slot.get().unwrap())(make_event("handler-test"));
    }
    assert!(received.lock().unwrap().contains(&"handler-test".to_string()));
}

#[test]
fn handler_and_relay_both_run() {
    let plan = dispatch(true, true, true);
    assert!(plan.call_handler && plan.send_to_relay && !plan.warn_dropped);
}

#[test]
fn foreground_process_only_relays() {
    let plan = dispatch(false, true, true);
    assert!(!plan.call_handler);
    assert!(plan.send_to_relay);
}

#[test]
fn relay_started_once() {
    assert!(start_relay(false));
    assert!(!start_relay(true));
}

fn run_dispatch(slot: &HandlerSlot<Handler>, event: NotificationActionEvent) {
    let plan = dispatch(true, slot.is_registered(), false);
    if plan.call_handler {
        (slot.get().unwrap())(event);
    }
}

#[test]
fn background_handler_receives_correct_fields() {
    let (tx, rx) = std::sync::mpsc::channel::<NotificationActionEvent>();
    let tx = Mutex::new(tx);
    let mut slot: HandlerSlot<Handler> = HandlerSlot::new();
    register_background_handler(&mut slot, Box::new(move |ev| {
        let _ = tx.lock().unwrap().send(ev);
    }));
    let mut inputs = InputMap::new();
    inputs.insert("reply_box".to_string(), "Hello".to_string());
    run_dispatch(
        &slot,
        NotificationActionEvent {
            action_id: "reply".to_string(),
            inputs,
            tag: Some("msg-1".to_string()),
            group: Some("chat".to_string()),
        },
    );
    let ev = rx.recv_timeout(std::time::Duration::from_millis(200)).unwrap();
    assert_eq!(ev.action_id, "reply");
    assert_eq!(ev.tag.as_deref(), Some("msg-1"));
    assert_eq!(ev.group.as_deref(), Some("chat"));
    assert_eq!(ev.inputs.get("reply_box").map(|s| s.as_str()), Some("Hello"));
}

#[test]
fn body_tap_empty_action_id_dispatches_without_panic() {
    let slot: HandlerSlot<Handler> = HandlerSlot::new();
    run_dispatch(&slot, make_event(""));
}

#[test]
fn dispatch_high_volume_no_panic() {
    let count = Arc::new(Mutex::new(0usize));
    let c = count.clone();
    let mut slot: HandlerSlot<Handler> = HandlerSlot::new();
    register_background_handler(&mut slot, Box::new(move |_| *c.lock().unwrap() += 1));
    for i in 0..1000 {
        run_dispatch(&slot, make_event(&format!("bulk-{i}")));
    }
    assert_eq!(*count.lock().unwrap(), 1000);
}

#[test]
fn dispatch_unicode_inputs_no_panic() {
    let mut inputs = InputMap::new();
    inputs.insert("emoji".to_string(), "🚀🔥你好".to_string());
    let slot: HandlerSlot<Handler> = HandlerSlot::new();
    run_dispatch(
        &slot,
        NotificationActionEvent { action_id: "unicode".to_string(), inputs, tag: None, group: None },
    );
}

#[test]
fn dispatch_large_payload_no_panic() {
    let mut inputs = InputMap::new();
    inputs.insert("data".to_string(), "X".repeat(10_000));
    let slot: HandlerSlot<Handler> = HandlerSlot::new();
    run_dispatch(
        &slot,
        NotificationActionEvent { action_id: "large".to_string(), inputs, tag: None, group: None },
    );
}

#[test]
fn handler_step_comes_before_relay_step() {
    assert_eq!(
        dispatch(true, true, true).steps(),
        vec![DispatchStep::CallHandler, DispatchStep::SendToRelay]
    );
    assert_eq!(dispatch(false, true, true).steps(), vec![DispatchStep::SendToRelay]);
    assert_eq!(dispatch(true, true, false).steps(), vec![DispatchStep::CallHandler]);
    assert!(dispatch(true, false, false).steps().is_empty());
}
