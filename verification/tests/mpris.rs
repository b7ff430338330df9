use joujou::mpris::{
    can_control, can_pause, can_play, can_quit, can_raise, can_seek, can_set_fullscreen,
    desktop_entry, fullscreen, has_track_list, identity, loop_status_to_repeat_mode,
    method_command, seek_target, supported_mime_types, supported_uri_schemes, CommandPlan,
    LoopStatus, MediaCommand, Metadata, PlaybackStatus, PlayerMethod,
};
use joujou::status::RepeatMode;

#[test]
fn root_properties_are_constant() {
    assert_eq!(identity(), "Joujou");
    assert!(can_quit());
    assert!(!can_raise());
    assert!(!fullscreen());
    assert!(!can_set_fullscreen());
    assert!(!has_track_list());
    assert_eq!(desktop_entry(), "");
    assert!(supported_uri_schemes().is_empty());
    assert!(supported_mime_types().is_empty());
    assert!(can_play());
    assert!(can_pause());
    assert!(can_seek());
    assert!(can_control());
}

#[test]
fn loop_status_translates_to_repeat_mode() {
    assert_eq!(loop_status_to_repeat_mode(LoopStatus::NoLoop), RepeatMode::Off);
    assert_eq!(loop_status_to_repeat_mode(LoopStatus::Track), RepeatMode::Single);
    assert_eq!(loop_status_to_repeat_mode(LoopStatus::Playlist), RepeatMode::All);
}

#[test]
fn transport_methods_map_to_commands() {
    let playing = PlaybackStatus::Playing;
    assert_eq!(
        method_command(PlayerMethod::Next, playing),
        CommandPlan::Media(MediaCommand::Next)
    );
    assert_eq!(
        method_command(PlayerMethod::Previous, playing),
        CommandPlan::Media(MediaCommand::Prev)
    );
    assert_eq!(
        method_command(PlayerMethod::Play, playing),
        CommandPlan::Media(MediaCommand::Play)
    );
    assert_eq!(
        method_command(PlayerMethod::Pause, playing),
        CommandPlan::Media(MediaCommand::Pause)
    );
    assert_eq!(
        method_command(PlayerMethod::Stop, playing),
        CommandPlan::Media(MediaCommand::Stop)
    );
}

#[test]
fn play_pause_branches_on_playback_status() {
    assert_eq!(
        method_command(PlayerMethod::PlayPause, PlaybackStatus::Playing),
        CommandPlan::Media(MediaCommand::Pause)
    );
    assert_eq!(
        method_command(PlayerMethod::PlayPause, PlaybackStatus::Paused),
        CommandPlan::Media(MediaCommand::Play)
    );
    assert_eq!(
        method_command(PlayerMethod::PlayPause, PlaybackStatus::Stopped),
        CommandPlan::Media(MediaCommand::Play)
    );
}

#[test]
fn seek_methods_carry_positions() {
    assert_eq!(
        method_command(
            PlayerMethod::Seek { offset_micros: -5_000_000 },
            PlaybackStatus::Playing
        ),
        CommandPlan::Media(MediaCommand::SeekRelative { offset_micros: -5_000_000 })
    );
    assert_eq!(
        method_command(
            PlayerMethod::SetPosition { position_micros: 30_000_000 },
            PlaybackStatus::Playing
        ),
        CommandPlan::Media(MediaCommand::SeekAbsolute { position_micros: 30_000_000 })
    );
}

#[test]
fn setters_map_to_queue_updates() {
    assert_eq!(
        method_command(
            PlayerMethod::SetLoopStatus(LoopStatus::Track),
            PlaybackStatus::Playing
        ),
        CommandPlan::Media(MediaCommand::SetRepeatMode(RepeatMode::Single))
    );
    assert_eq!(
        method_command(PlayerMethod::SetShuffle(true), PlaybackStatus::Playing),
        CommandPlan::Media(MediaCommand::SetShuffle(true))
    );
}

#[test]
fn set_volume_requeries_full_status() {
    assert_eq!(
        method_command(
            PlayerMethod::SetVolume { level: 400 },
            PlaybackStatus::Playing
        ),
        CommandPlan::SetVolumeThenQueryStatus { level: 400 }
    );
}

#[test]
fn open_uri_is_unsupported() {
    assert_eq!(
        method_command(PlayerMethod::OpenUri, PlaybackStatus::Playing),
        CommandPlan::Unsupported
    );
}

#[test]
fn seek_targets_resolve_and_saturate() {
    assert_eq!(seek_target(30_000_000, -5_000_000), 25_000_000);
    assert_eq!(seek_target(30_000_000, 5_000_000), 35_000_000);
    assert_eq!(seek_target(i64::MAX - 1, 10), i64::MAX);
    assert_eq!(seek_target(i64::MIN + 1, -10), i64::MIN);
}

#[test]
fn metadata_equality_is_by_value() {
    let a = Metadata::empty();
    let b = Metadata::empty();
    assert!(a == b);
    let mut c = Metadata::empty();
    c.title = Some("Title".to_owned());
    assert!(a != c);
    let d = c.duplicate();
    assert!(c == d);
}
