use joujou::audio::{
    codec_allowed, convert_metadata, format_release_date, validate_codecs, AudioError, CodecId,
    ContainerKind, Tag, TagKey, TagValue,
};

#[test]
fn container_from_ext() {
    assert_eq!(ContainerKind::from_ext("flac"), Some(ContainerKind::Flac));
    assert_eq!(ContainerKind::from_ext("ogg"), Some(ContainerKind::Ogg));
    assert_eq!(ContainerKind::from_ext("oga"), Some(ContainerKind::Ogg));
    assert_eq!(ContainerKind::from_ext("opus"), Some(ContainerKind::Ogg));
    assert_eq!(ContainerKind::from_ext("mka"), Some(ContainerKind::Matroska));
    assert_eq!(ContainerKind::from_ext("mp3"), Some(ContainerKind::Mp3));
    assert_eq!(ContainerKind::from_ext("m4a"), Some(ContainerKind::Mp4));
    assert_eq!(ContainerKind::from_ext("wav"), None);
    // from_ext expects the extension already lowercased.
    assert_eq!(ContainerKind::from_ext("FLAC"), None);
}

#[test]
fn container_mime_types() {
    assert_eq!(ContainerKind::Flac.mime_type(), "audio/flac");
    assert_eq!(ContainerKind::Ogg.mime_type(), "audio/ogg");
    assert_eq!(ContainerKind::Matroska.mime_type(), "audio/webm");
    assert_eq!(ContainerKind::Mp3.mime_type(), "audio/mpeg");
    assert_eq!(ContainerKind::Mp4.mime_type(), "audio/m4a");
}

#[test]
fn codecs_match_containers() {
    assert!(codec_allowed(ContainerKind::Flac, CodecId::Flac));
    assert!(!codec_allowed(ContainerKind::Flac, CodecId::Mp3));
    assert!(codec_allowed(ContainerKind::Ogg, CodecId::Vorbis));
    assert!(codec_allowed(ContainerKind::Ogg, CodecId::Opus));
    assert!(codec_allowed(ContainerKind::Matroska, CodecId::Opus));
    assert!(!codec_allowed(ContainerKind::Matroska, CodecId::Aac));
    assert!(codec_allowed(ContainerKind::Mp3, CodecId::Mp3));
    assert!(codec_allowed(ContainerKind::Mp4, CodecId::Aac));
    assert!(!codec_allowed(ContainerKind::Mp4, CodecId::Other));
}

#[test]
fn validate_codecs_checks_every_track() {
    assert_eq!(
        validate_codecs(ContainerKind::Ogg, &vec![CodecId::Vorbis, CodecId::Opus]),
        Ok(())
    );
    assert_eq!(
        validate_codecs(ContainerKind::Ogg, &vec![CodecId::Vorbis, CodecId::Mp3]),
        Err(AudioError::UnexpectedCodec)
    );
    assert_eq!(validate_codecs(ContainerKind::Flac, &Vec::new()), Ok(()));
}

fn text_tag(key: TagKey, value: &str) -> Tag {
    Tag { key, value: TagValue::Text(value.to_owned()) }
}

#[test]
fn tags_convert_with_last_wins() {
    let tags = vec![
        text_tag(TagKey::Album, "First Album"),
        text_tag(TagKey::TrackTitle, "Title"),
        Tag { key: TagKey::TrackNumber, value: TagValue::UnsignedInt(4) },
        text_tag(TagKey::Album, "Second Album"),
        Tag { key: TagKey::Other, value: TagValue::Text("skipped".to_owned()) },
    ];
    let m = convert_metadata(&tags);
    assert_eq!(m.album_name.as_deref(), Some("Second Album"));
    assert_eq!(m.title.as_deref(), Some("Title"));
    assert_eq!(m.track_number, Some(4));
    assert_eq!(m.artist, None);
    assert!(m.images.is_empty());
}

#[test]
fn non_text_values_clear_text_fields() {
    let tags = vec![
        text_tag(TagKey::Album, "Album"),
        Tag { key: TagKey::Album, value: TagValue::UnsignedInt(3) },
    ];
    let m = convert_metadata(&tags);
    assert_eq!(m.album_name, None);
}

#[test]
fn oversized_numbers_are_dropped() {
    let tags = vec![Tag {
        key: TagKey::TrackNumber,
        value: TagValue::UnsignedInt(0x1_0000_0000),
    }];
    let m = convert_metadata(&tags);
    assert_eq!(m.track_number, None);
}

#[test]
fn release_dates_format() {
    assert_eq!(format_release_date(2021, 3, 5), "2021-3-5");
    assert_eq!(format_release_date(1999, 12, 31), "1999-12-31");
    assert_eq!(format_release_date(0, 0, 0), "0-0-0");
}
