use joujou::status::{
    Media, MediaSnapshot, PlayerState, QueueData, QueueItem, ReceiverSnapshot,
};
use joujou::store::SnapshotStore;

fn base_snapshot(session: i32) -> MediaSnapshot {
    MediaSnapshot {
        media_session_id: session,
        player_state: PlayerState::Playing,
        idle_reason: None,
        extended_status: None,
        items: None,
        current_item_id: None,
        media: None,
        queue_data: None,
        repeat_mode: None,
        current_time_micros: None,
    }
}

fn media_desc(content_id: &str) -> Media {
    Media {
        content_id: content_id.to_owned(),
        content_type: "audio/flac".to_owned(),
        metadata: None,
        duration_micros: Some(180_000_000),
    }
}

fn full_snapshot(session: i32) -> MediaSnapshot {
    let mut s = base_snapshot(session);
    s.items = Some(vec![QueueItem { item_id: Some(1) }, QueueItem { item_id: Some(2) }]);
    s.current_item_id = Some(1);
    s.media = Some(media_desc("http://host/t/0"));
    s.queue_data = Some(QueueData { shuffle: false });
    s
}

fn assert_same_media(a: &MediaSnapshot, b: &MediaSnapshot) {
    assert_eq!(a.media_session_id, b.media_session_id);
    assert_eq!(a.player_state, b.player_state);
    assert_eq!(a.idle_reason, b.idle_reason);
    assert_eq!(a.extended_status, b.extended_status);
    assert_eq!(
        a.items.as_ref().map(|v| v.as_slice()),
        b.items.as_ref().map(|v| v.as_slice())
    );
    assert_eq!(a.current_item_id, b.current_item_id);
    assert_eq!(
        a.media.as_ref().map(|m| (&m.content_id, &m.content_type, m.duration_micros)),
        b.media.as_ref().map(|m| (&m.content_id, &m.content_type, m.duration_micros))
    );
    assert_eq!(a.queue_data, b.queue_data);
    assert_eq!(a.repeat_mode, b.repeat_mode);
    assert_eq!(a.current_time_micros, b.current_time_micros);
}

#[test]
fn merge_idempotence_full_snapshot() {
    let receiver = ReceiverSnapshot { level: 500, muted: false };
    let mut store = SnapshotStore::new(base_snapshot(7), receiver);
    store.publish_media(full_snapshot(7));
    let first = store.current_media().clone();
    store.publish_media(full_snapshot(7));
    let second = store.current_media().clone();
    assert_same_media(&first, &second);
}

#[test]
fn merge_idempotence_partial_update() {
    let receiver = ReceiverSnapshot { level: 500, muted: false };
    let mut store = SnapshotStore::new(full_snapshot(7), receiver);
    let mut partial = base_snapshot(7);
    partial.player_state = PlayerState::Paused;
    store.publish_media(partial.clone());
    let first = store.current_media().clone();
    store.publish_media(partial);
    let second = store.current_media().clone();
    assert_same_media(&first, &second);
}

#[test]
fn partial_update_carry_forward() {
    let receiver = ReceiverSnapshot { level: 500, muted: false };
    let s0 = full_snapshot(7);
    let mut store = SnapshotStore::new(base_snapshot(7), receiver);
    store.publish_media(s0);
    let mut update = base_snapshot(7);
    update.player_state = PlayerState::Playing;
    store.publish_media(update);
    let merged = store.current_media();
    assert_eq!(merged.player_state, PlayerState::Playing);
    let items = merged.items.as_ref().expect("items carried forward");
    assert_eq!(items.len(), 2);
    assert_eq!(items[0].item_id, Some(1));
    assert_eq!(items[1].item_id, Some(2));
    let media = merged.media.as_ref().expect("media carried forward");
    assert_eq!(media.content_id, "http://host/t/0");
    assert_eq!(merged.queue_data, Some(QueueData { shuffle: false }));
    // Fields outside the three carried ones come fresh from the update.
    assert_eq!(merged.current_item_id, None);
    assert_eq!(merged.current_time_micros, None);
}

#[test]
fn full_update_replaces_wholesale() {
    let receiver = ReceiverSnapshot { level: 500, muted: false };
    let mut store = SnapshotStore::new(full_snapshot(7), receiver);
    let mut replacement = full_snapshot(7);
    replacement.items = Some(vec![QueueItem { item_id: Some(9) }]);
    replacement.current_item_id = Some(9);
    store.publish_media(replacement);
    let merged = store.current_media();
    assert_eq!(merged.items.as_ref().unwrap().len(), 1);
    assert_eq!(merged.items.as_ref().unwrap()[0].item_id, Some(9));
    assert_eq!(merged.current_item_id, Some(9));
}

#[test]
fn change_signals_are_separate() {
    let receiver = ReceiverSnapshot { level: 500, muted: false };
    let mut store = SnapshotStore::new(base_snapshot(7), receiver);
    assert!(!store.take_media_changed());
    assert!(!store.take_receiver_changed());
    store.publish_media(full_snapshot(7));
    assert!(!store.take_receiver_changed());
    assert!(store.take_media_changed());
    assert!(!store.take_media_changed());
    store.publish_receiver(ReceiverSnapshot { level: 400, muted: false });
    assert!(!store.take_media_changed());
    assert!(store.take_receiver_changed());
    assert_eq!(store.current_receiver().level, 400);
}
