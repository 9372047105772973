use tauri_plugin_notification::activation_queue::{
    decrypt, derive_key, encrypt, journal_file, queue_file, queue_tmp_file, QueueState,
    QueuedActivation, MAX_QUEUE_SIZE,
};
use tauri_plugin_notification::input_map::InputMap;
use tauri_plugin_notification::models::NotificationActionEvent;

fn make_event(id: &str) -> NotificationActionEvent {
    NotificationActionEvent {
        action_id: id.to_string(),
        inputs: InputMap::new(),
        tag: None,
        group: None,
    }
}

// ── Encryption round-trip ─────────────────────────────────────────────────

#[test]
fn encrypt_decrypt_round_trip() {
    let plain = b"hello encrypted world";
    let guid = "test-guid-1234";
    let blob = encrypt(plain, guid);
    let back = decrypt(&blob, guid).expect("decrypt failed");
    assert_eq!(back, plain);
}

#[test]
fn decrypt_with_wrong_key_returns_none() {
    let blob = encrypt(b"secret", "guid-a");
    assert!(decrypt(&blob, "guid-b").is_none());
}

#[test]
fn decrypt_truncated_blob_returns_none() {
    assert!(decrypt(&[0u8; 5], "guid").is_none());
}

#[test]
fn two_encryptions_produce_different_nonces() {
    let blob1 = encrypt(b"data", "guid");
    let blob2 = encrypt(b"data", "guid");
    assert_ne!(&blob1[..12], &blob2[..12]);
}

#[test]
fn blob_is_nonce_ciphertext_and_tag() {
    let blob = encrypt(b"abc", "g");
    assert_eq!(blob.len(), 12 + 3 + 16);
}

#[test]
fn tampered_blob_does_not_decrypt() {
    let mut blob = encrypt(b"payload", "g");
    let last = blob.len() - 1;
    blob[last] ^= 1;
    assert!(decrypt(&blob, "g").is_none());
}

#[test]
fn empty_plaintext_round_trips() {
    let blob = encrypt(b"", "g");
    assert_eq!(decrypt(&blob, "g").unwrap(), Vec::<u8>::new());
}

#[test]
fn key_is_sha256_of_the_guid() {
    let k = derive_key("abc");
    assert_eq!(k.len(), 32);
    assert_eq!(
        k,
        vec![
            0xba, 0x78, 0x16, 0xbf, 0x8f, 0x01, 0xcf, 0xea, 0x41, 0x41, 0x40, 0xde, 0x5d, 0xae,
            0x22, 0x23, 0xb0, 0x03, 0x61, 0xa3, 0x96, 0x17, 0x7a, 0x9c, 0xb4, 0x10, 0xff, 0x61,
            0xf2, 0x00, 0x15, 0xad
        ]
    );
}

// ── Overflow ──────────────────────────────────────────────────────────────

#[test]
fn overflow_drops_oldest_and_stays_at_max() {
    let mut state = QueueState::new();
    for i in 0..(MAX_QUEUE_SIZE + 10) {
        state.enqueue(format!("id{i}"), make_event(&format!("p{i}")));
    }
    assert!(state.len() <= MAX_QUEUE_SIZE);
    assert_eq!(state.len(), MAX_QUEUE_SIZE);
    assert_eq!(state.items().front().unwrap().id, "id10");
}

#[test]
fn overflow_evicted_id_removed_from_seen() {
    let mut state = QueueState::new();
    for i in 0..MAX_QUEUE_SIZE {
        state.enqueue(format!("id{i}"), make_event(&format!("p{i}")));
    }
    state.enqueue("overflow".into(), make_event("overflow"));
    assert!(!state.contains_id("id0"));
    state.enqueue("id0".into(), make_event("re-enqueued"));
    assert!(state.contains_id("id0"), "id0 must be back in seen");
}

// ── Sequential order ──────────────────────────────────────────────────────

#[test]
fn items_preserved_in_fifo_order() {
    let mut state = QueueState::new();
    state.enqueue("1".into(), make_event("A"));
    state.enqueue("2".into(), make_event("B"));
    state.enqueue("3".into(), make_event("C"));
    assert_eq!(state.pop_next().unwrap().payload.action_id, "A");
    assert_eq!(state.pop_next().unwrap().payload.action_id, "B");
    assert_eq!(state.pop_next().unwrap().payload.action_id, "C");
    assert!(state.pop_next().is_none());
}

// ── Timestamp ─────────────────────────────────────────────────────────────

#[test]
fn timestamp_is_nonzero() {
    let mut state = QueueState::new();
    state.enqueue("ts".into(), make_event("payload"));
    assert!(state.items().front().unwrap().timestamp > 0);
}

// ── Flush ─────────────────────────────────────────────────────────────────

#[test]
fn flush_clears_queue_and_persists_empty() {
    let mut state = QueueState::new();
    state.enqueue("f1".into(), make_event("p1"));
    state.clear();
    assert!(state.is_empty());
    assert!(!state.contains_id("f1"));
}

// ── Exactly once ──────────────────────────────────────────────────────────

#[test]
fn duplicate_id_is_ignored() {
    let mut state = QueueState::new();
    state.enqueue_at("x".into(), make_event("first"), 1);
    state.enqueue_at("x".into(), make_event("second"), 2);
    assert_eq!(state.len(), 1);
    assert_eq!(state.items()[0].payload.action_id, "first");
    assert_eq!(state.items()[0].timestamp, 1);
}

#[test]
fn popped_id_can_be_queued_again() {
    let mut state = QueueState::new();
    state.enqueue_at("x".into(), make_event("a"), 1);
    let act = state.pop_next().unwrap();
    assert!(!state.contains_id("x"));
    state.requeue(act);
    assert!(state.contains_id("x"));
    assert_eq!(state.len(), 1);
}

#[test]
fn requeue_into_full_queue_drops_the_item() {
    let mut state = QueueState::new();
    for i in 0..MAX_QUEUE_SIZE {
        state.enqueue_at(format!("id{i}"), make_event("p"), 7);
    }
    state.requeue(QueuedActivation { id: "late".into(), payload: make_event("late"), timestamp: 9 });
    assert_eq!(state.len(), MAX_QUEUE_SIZE);
    assert!(!state.contains_id("late"));
}

#[test]
fn restore_replaces_contents_in_order() {
    let mut state = QueueState::new();
    state.enqueue_at("old".into(), make_event("old"), 1);
    let loaded = vec![
        QueuedActivation { id: "restore1".into(), payload: make_event("a"), timestamp: 5 },
        QueuedActivation { id: "restore2".into(), payload: make_event("b"), timestamp: 6 },
    ];
    state.restore(loaded);
    assert_eq!(state.len(), 2);
    assert_eq!(state.items()[0].id, "restore1");
    assert!(state.contains_id("restore2"));
    assert!(!state.contains_id("old"));
}

#[test]
fn storage_file_names() {
    assert_eq!(queue_file(), "activation_queue.bin");
    assert_eq!(queue_tmp_file(), "activation_queue.bin.tmp");
    assert_eq!(journal_file(), "activation_queue.journal");
}

#[test]
fn saved_items_restore_the_same_queue() {
    let mut state = QueueState::new();
    for i in 0..5 {
        state.enqueue_at(format!("id{i}"), make_event("p"), i);
    }
    let saved: Vec<QueuedActivation> = state.items().iter().cloned().collect();
    let mut back = QueueState::new();
    back.restore(saved);
    assert_eq!(back.len(), 5);
    for i in 0..5 {
        assert_eq!(back.items()[i].id, format!("id{i}"));
        assert!(back.contains_id(&format!("id{i}")));
    }
    state.clear();
    let mut empty = QueueState::new();
    empty.restore(state.items().iter().cloned().collect());
    assert!(empty.is_empty());
}

#[test]
fn enqueue_keeps_earlier_items_and_evicts_only_the_oldest() {
    let mut state = QueueState::new();
    for i in 0..MAX_QUEUE_SIZE {
        state.enqueue(format!("id{i}"), make_event("p"));
    }
    state.enqueue("new".into(), make_event("n"));
    assert_eq!(state.len(), MAX_QUEUE_SIZE);
    assert_eq!(state.items()[0].id, "id1");
    assert_eq!(state.items()[MAX_QUEUE_SIZE - 2].id, format!("id{}", MAX_QUEUE_SIZE - 1));
    assert_eq!(state.items()[MAX_QUEUE_SIZE - 1].id, "new");
    assert!(!state.contains_id("id0"));
}
