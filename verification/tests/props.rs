use joujou::mpris::{LoopStatus, PlaybackStatus, Property};
use joujou::player::{Player, PropertyCache};
use joujou::status::{
    MediaSnapshot, PlayerState, QueueData, ReceiverSnapshot, RepeatMode,
};

fn base_snapshot(session: i32) -> MediaSnapshot {
    MediaSnapshot {
        media_session_id: session,
        player_state: PlayerState::Playing,
        idle_reason: None,
        extended_status: None,
        items: None,
        current_item_id: None,
        media: None,
        queue_data: None,
        repeat_mode: None,
        current_time_micros: None,
    }
}

fn player_with(snapshot: MediaSnapshot) -> Player {
    Player::from_status(
        "transport-1".to_owned(),
        snapshot,
        ReceiverSnapshot { level: 1000, muted: false },
    )
}

#[test]
fn no_change_no_notification() {
    let player = player_with(base_snapshot(7));
    let mut cache = PropertyCache::new(&player).expect("projections compute");
    let first = cache.media_changes(&player).expect("diff computes");
    assert!(first.is_empty());
    let second = cache.media_changes(&player).expect("diff computes");
    assert!(second.is_empty());
    assert_eq!(cache.volume_change(&player), None);
}

#[test]
fn volume_only_change_notifies_volume_alone() {
    let mut player = player_with(base_snapshot(7));
    let mut cache = PropertyCache::new(&player).expect("projections compute");
    player.set_receiver_status(ReceiverSnapshot { level: 300, muted: false });
    // The media projections did not change.
    let media = cache.media_changes(&player).expect("diff computes");
    assert!(media.is_empty());
    // The volume projection changed, and exactly it is signalled.
    assert_eq!(cache.volume_change(&player), Some(300));
    // Signalled once: the cache now holds the new value.
    assert_eq!(cache.volume_change(&player), None);
}

#[test]
fn media_change_notifies_changed_properties_in_order() {
    let mut player = player_with(base_snapshot(7));
    let mut cache = PropertyCache::new(&player).expect("projections compute");
    let mut update = base_snapshot(7);
    update.player_state = PlayerState::Paused;
    update.repeat_mode = Some(RepeatMode::All);
    update.queue_data = Some(QueueData { shuffle: true });
    player.set_media_status(update);
    let props = cache.media_changes(&player).expect("diff computes");
    assert_eq!(props.len(), 5);
    assert!(matches!(props[0], Property::PlaybackStatus(PlaybackStatus::Paused)));
    assert!(matches!(props[1], Property::LoopStatus(LoopStatus::Playlist)));
    // The active repeat mode turned both skip directions on.
    assert!(matches!(props[2], Property::CanGoNext(true)));
    assert!(matches!(props[3], Property::CanGoPrevious(true)));
    assert!(matches!(props[4], Property::Shuffle(true)));
    // A second recomputation over the same projections is silent.
    let again = cache.media_changes(&player).expect("diff computes");
    assert!(again.is_empty());
}

#[test]
fn cache_primes_from_current_projections() {
    let mut s = base_snapshot(7);
    s.player_state = PlayerState::Paused;
    s.repeat_mode = Some(RepeatMode::Single);
    let player = player_with(s);
    let cache = PropertyCache::new(&player).expect("projections compute");
    assert_eq!(cache.playback_status, PlaybackStatus::Paused);
    assert_eq!(cache.loop_status, LoopStatus::Track);
    assert_eq!(cache.volume, 1000);
    // The active repeat mode alone makes both skip directions available.
    assert!(cache.can_go_next);
    assert!(cache.can_go_previous);
    assert!(!cache.shuffle);
}
