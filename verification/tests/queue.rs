use lisca::commands::{snapshot, QueueItemDto};
use lisca::queue::{
    Playable, Queue, QueueConfig, QueueControllable, QueueItem, SpeechStatus, TextMessageStatus,
    Transcribable,
};

#[test]
fn add_text_creates_item() {
    let mut q = Queue::new();
    let id = q.add_text("hello".to_string()).unwrap();
    assert_eq!(id, 1);
    match &q.items()[0] {
        QueueItem::TextMessage { text, status, .. } => {
            assert_eq!(text, "hello");
            assert_eq!(*status, TextMessageStatus::Pending);
        }
        _ => panic!("expected TextMessage"),
    }
}

#[test]
fn add_multiple_items_in_order() {
    let mut q = Queue::new();
    let id1 = q.add_text("first".to_string()).unwrap();
    let id2 = q.add_text("second".to_string()).unwrap();
    let id3 = q.add_text("third".to_string()).unwrap();
    assert_eq!(q.items().len(), 3);
    assert_eq!(q.items()[0].id(), id1);
    assert_eq!(q.items()[1].id(), id2);
    assert_eq!(q.items()[2].id(), id3);
}

#[test]
fn remove_item() {
    let mut q = Queue::new();
    let id1 = q.add_text("first".to_string()).unwrap();
    let id2 = q.add_text("second".to_string()).unwrap();
    q.remove(id1).unwrap();
    assert_eq!(q.items().len(), 1);
    assert_eq!(q.items()[0].id(), id2);
}

#[test]
fn remove_nonexistent_fails() {
    let mut q = Queue::new();
    assert!(q.remove(999).is_err());
}

#[test]
fn clear_removes_all() {
    let mut q = Queue::new();
    q.add_text("first".to_string()).unwrap();
    q.add_text("second".to_string()).unwrap();
    q.clear().unwrap();
    assert!(q.items().is_empty());
}

#[test]
fn reorder_moves_item() {
    let mut q = Queue::new();
    let id1 = q.add_text("first".to_string()).unwrap();
    let id2 = q.add_text("second".to_string()).unwrap();
    let id3 = q.add_text("third".to_string()).unwrap();
    q.reorder(id1, 2).unwrap();
    assert_eq!(q.items()[0].id(), id2);
    assert_eq!(q.items()[1].id(), id3);
    assert_eq!(q.items()[2].id(), id1);
}

#[test]
fn reorder_clamps_index() {
    let mut q = Queue::new();
    let id1 = q.add_text("first".to_string()).unwrap();
    let _id2 = q.add_text("second".to_string()).unwrap();
    q.reorder(id1, 100).unwrap();
    assert_eq!(q.items()[1].id(), id1);
}

#[test]
fn reorder_nonexistent_fails() {
    let mut q = Queue::new();
    q.add_text("first".to_string()).unwrap();
    assert!(q.reorder(999, 0).is_err());
}

#[test]
fn next_to_play_finds_first_to_play() {
    let mut q = Queue::new();
    q.add_text("a".to_string()).unwrap();
    q.add_text("b".to_string()).unwrap();

    q.replace_with_speech(1, None, None, None).unwrap();
    q.replace_with_speech(2, None, None, None).unwrap();

    q.set_speech_status(1, SpeechStatus::Playing).unwrap();

    let next = q.next_to_play_speech();
    assert_eq!(next, Some((1, 2)));
}

#[test]
fn next_to_play_returns_none_when_empty() {
    let q = Queue::new();
    assert_eq!(q.next_to_play_speech(), None);
}

#[test]
fn next_to_play_returns_none_when_all_played() {
    let mut q = Queue::new();
    q.add_text("a".to_string()).unwrap();
    q.add_text("b".to_string()).unwrap();
    q.replace_with_speech(1, None, None, None).unwrap();
    q.replace_with_speech(2, None, None, None).unwrap();
    q.set_speech_status(1, SpeechStatus::Played).unwrap();
    q.set_speech_status(2, SpeechStatus::Played).unwrap();
    assert_eq!(q.next_to_play_speech(), None);
}

#[test]
fn replace_preserves_position() {
    let mut q = Queue::new();
    q.add_text("before".to_string()).unwrap();
    let id = q.add_text("target".to_string()).unwrap();
    q.add_text("after".to_string()).unwrap();

    q.replace_with_speech(
        id,
        Some("/tmp/audio.wav".to_string()),
        Some("en-us".to_string()),
        Some("en".to_string()),
    )
    .unwrap();

    assert_eq!(q.items().len(), 3);
    assert_eq!(q.items()[0].id(), 1);
    assert_eq!(q.items()[1].id(), id);
    assert_eq!(q.items()[2].id(), 3);
    match &q.items()[1] {
        QueueItem::Speech { audio_path, voice_key, language, status, .. } => {
            assert_eq!(audio_path.as_deref(), Some("/tmp/audio.wav"));
            assert_eq!(voice_key.as_deref(), Some("en-us"));
            assert_eq!(language.as_deref(), Some("en"));
            assert_eq!(status, &SpeechStatus::ToPlay);
        }
        _ => panic!("expected Speech"),
    }
}

#[test]
fn replace_wrong_id_fails() {
    let mut q = Queue::new();
    q.add_text("hello".to_string()).unwrap();
    assert!(q.replace_with_speech(999, Some("/tmp/a.wav".into()), None, None).is_err());
}

#[test]
fn replace_non_text_message_fails() {
    let mut q = Queue::new();
    q.add_text("hello".to_string()).unwrap();
    q.replace_with_speech(1, Some("/tmp/a.wav".into()), None, None).unwrap();
    assert!(q.replace_with_speech(1, Some("/tmp/b.wav".into()), None, None).is_err());
}

#[test]
fn next_pending_finds_first_pending() {
    let mut q = Queue::new();
    let id1 = q.add_text("first".to_string()).unwrap();
    let id2 = q.add_text("second".to_string()).unwrap();
    q.add_text("third".to_string()).unwrap();

    q.set_text_message_status(id2, TextMessageStatus::Processing).unwrap();

    let next = q.next_pending_text_message();
    assert_eq!(next, Some((0, id1)));
}

#[test]
fn next_pending_returns_none_when_empty() {
    let q = Queue::new();
    assert_eq!(q.next_pending_text_message(), None);
}

#[test]
fn next_pending_returns_none_when_all_processing() {
    let mut q = Queue::new();
    let id1 = q.add_text("a".to_string()).unwrap();
    let id2 = q.add_text("b".to_string()).unwrap();
    q.set_text_message_status(id1, TextMessageStatus::Processing).unwrap();
    q.set_text_message_status(id2, TextMessageStatus::Processing).unwrap();
    assert_eq!(q.next_pending_text_message(), None);
}

// ── Further cases ───────────────────────────────────────────────

#[test]
fn full_queue_refuses_new_text() {
    let config = QueueConfig { max_items: 2, auto_read: true, show_overlay: true };
    let mut q = Queue::new().with_config(config);
    q.add_text("a".to_string()).unwrap();
    q.add_text("b".to_string()).unwrap();
    assert_eq!(q.add_text("c".to_string()), Err("queue is full".to_string()));
    assert_eq!(q.items().len(), 2);
    assert_eq!(q.next_id(), 3);
}

#[test]
fn zero_limit_means_unlimited() {
    let config = QueueConfig { max_items: 0, auto_read: true, show_overlay: true };
    let mut q = Queue::new().with_config(config);
    for i in 0..60 {
        assert_eq!(q.add_text(format!("t{i}")), Ok(i + 1));
    }
}

#[test]
fn default_queue_config() {
    assert_eq!(
        QueueConfig::default(),
        QueueConfig { max_items: 50, auto_read: true, show_overlay: true }
    );
}

#[test]
fn error_messages_name_the_item() {
    let mut q = Queue::new();
    assert_eq!(q.remove(7), Err("item with id 7 not found".to_string()));
    assert_eq!(q.reorder(8, 0), Err("item with id 8 not found".to_string()));
    q.add_text("x".to_string()).unwrap();
    assert_eq!(
        q.set_speech_status(1, SpeechStatus::Played),
        Err("item is not a Speech".to_string())
    );
    q.replace_with_speech(1, None, None, None).unwrap();
    assert_eq!(
        q.set_text_message_status(1, TextMessageStatus::Pending),
        Err("item is not a TextMessage".to_string())
    );
}

#[test]
fn removed_id_is_not_reused() {
    let mut q = Queue::new();
    let a = q.add_text("a".to_string()).unwrap();
    q.remove(a).unwrap();
    let b = q.add_text("b".to_string()).unwrap();
    assert_ne!(a, b);
    assert_eq!(b, 2);
}

#[test]
fn reorder_to_front_and_same_place() {
    let mut q = Queue::new();
    let a = q.add_text("a".to_string()).unwrap();
    let b = q.add_text("b".to_string()).unwrap();
    let c = q.add_text("c".to_string()).unwrap();
    q.reorder(c, 0).unwrap();
    let ids: Vec<u64> = q.items().iter().map(|i| i.id()).collect();
    assert_eq!(ids, vec![c, a, b]);
    q.reorder(a, 1).unwrap();
    let ids: Vec<u64> = q.items().iter().map(|i| i.id()).collect();
    assert_eq!(ids, vec![c, a, b]);
}

#[test]
fn poll_next_speech_marks_it_playing() {
    let mut q = Queue::new();
    q.add_text("a".to_string()).unwrap();
    q.add_text("b".to_string()).unwrap();
    q.replace_with_speech(2, Some("/tmp/b.wav".into()), None, None).unwrap();
    let item = q.poll_next_speech().unwrap();
    assert_eq!(item.id, 2);
    assert_eq!(item.audio_path.as_deref(), Some("/tmp/b.wav"));
    match &q.items()[1] {
        QueueItem::Speech { status, .. } => assert_eq!(*status, SpeechStatus::Playing),
        _ => panic!("expected Speech"),
    }
    assert!(q.poll_next_speech().is_none());
}

#[test]
fn next_text_and_playable_items() {
    let mut q = Queue::new();
    assert!(!q.has_playable_items());
    assert!(q.next_text().is_none());
    q.add_text("hello".to_string()).unwrap();
    assert!(q.has_playable_items());
    let t = q.next_text().unwrap();
    assert_eq!((t.id, t.text.as_str()), (1, "hello"));
    q.set_text_message_status(1, TextMessageStatus::Processing).unwrap();
    assert!(!q.has_playable_items());
    q.replace_with_speech(1, None, None, None).unwrap();
    assert!(q.has_playable_items());
}

#[test]
fn replay_moves_item_to_front_ready_to_play() {
    let mut q = Queue::new();
    q.add_text("a".to_string()).unwrap();
    q.add_text("b".to_string()).unwrap();
    q.replace_with_speech(2, None, None, None).unwrap();
    q.set_speech_status(2, SpeechStatus::Played).unwrap();
    q.replay_item(2).unwrap();
    assert_eq!(q.items()[0].id(), 2);
    assert_eq!(q.next_to_play_speech(), Some((0, 2)));
    assert!(q.replay_item(1).is_err());
    assert!(q.replay_item(9).is_err());
}

#[test]
fn failed_item_is_dropped_and_overlay_toggles() {
    let mut q = Queue::new();
    q.add_text("a".to_string()).unwrap();
    q.drop_failed_item(1);
    assert!(q.items().is_empty());
    q.drop_failed_item(5);
    assert!(q.toggle_overlay() == false);
    assert!(q.toggle_overlay() == true);
    assert!(q.config().show_overlay);
}

#[test]
fn config_path_is_required_to_save() {
    let q = Queue::new();
    assert_eq!(q.config_path(), Err("no config path configured".to_string()));
    let q = q.with_config_path("/tmp/q.json".to_string());
    assert_eq!(q.config_path(), Ok(&"/tmp/q.json".to_string()));
}

#[test]
fn snapshot_names_statuses() {
    let mut q = Queue::new();
    q.add_text("a".to_string()).unwrap();
    q.add_text("b".to_string()).unwrap();
    q.replace_with_speech(2, None, Some("v".into()), Some("en".into())).unwrap();
    let snap = snapshot(&q);
    assert!(snap.show_overlay);
    assert_eq!(
        snap.items[0],
        QueueItemDto::TextMessage { id: 1, text: "a".into(), status: "pending".into() }
    );
    assert_eq!(
        snap.items[1],
        QueueItemDto::Speech {
            id: 2,
            text: "b".into(),
            language: Some("en".into()),
            voice_key: Some("v".into()),
            status: "toplay".into(),
        }
    );
}

#[test]
fn replayed_speech_plays_next() {
    let mut q = Queue::new();
    let a = q.add_text("a".to_string()).unwrap();
    let b = q.add_text("b".to_string()).unwrap();
    q.replace_with_speech(a, Some("a.f32".to_string()), None, None).unwrap();
    q.replace_with_speech(b, Some("b.f32".to_string()), None, None).unwrap();
    q.set_speech_status(b, SpeechStatus::Played).unwrap();
    q.replay_item(b).unwrap();
    assert_eq!(q.items()[0].id(), b);
    let next = q.poll_next_speech().unwrap();
    assert_eq!(next.id, b);
    assert_eq!(next.audio_path, Some("b.f32".to_string()));
    assert!(q.replay_item(999).is_err());
}
