//! Classification of audio files and conversion of their tags.
//!
//! A file is recognized by its extension and mapped to the container kinds
//! the receiver can play; its tags, already read from the container, are
//! converted to the track metadata the cast protocol carries, with the
//! last occurrence of a repeated tag winning. Codec identifiers are
//! checked against the container they arrived in, so that a queue never
//! holds a stream the receiver would reject.

use vstd::prelude::*;

use crate::status::{MusicTrackMediaMetadata, MusicTrackMediaMetadataView};
use crate::text::str_eq;

verus! {

/// The audio containers the player serves, by file extension.
#[derive(Clone, Copy, Debug, PartialEq, Eq, Structural)]
pub enum ContainerKind {
    /// A FLAC stream.
    Flac,
    /// An Ogg container holding Vorbis or Opus.
    Ogg,
    /// A Matroska audio container.
    Matroska,
    /// An MPEG audio stream.
    Mp3,
    /// An MPEG-4 audio container holding AAC.
    Mp4,
}

/// The container kind a lowercased file extension stands for.
pub open spec fn spec_container_from_ext(ext: Seq<char>) -> Option<ContainerKind> {
    if ext == "flac"@ {
        Some(ContainerKind::Flac)
    } else if ext == "ogg"@ || ext == "oga"@ || ext == "opus"@ {
        Some(ContainerKind::Ogg)
    } else if ext == "mka"@ {
        Some(ContainerKind::Matroska)
    } else if ext == "mp3"@ {
        Some(ContainerKind::Mp3)
    } else if ext == "m4a"@ {
        Some(ContainerKind::Mp4)
    } else {
        None
    }
}

/// The MIME type of each container kind.
pub open spec fn spec_container_mime(kind: ContainerKind) -> Seq<char> {
    match kind {
        ContainerKind::Flac => "audio/flac"@,
        ContainerKind::Ogg => "audio/ogg"@,
        ContainerKind::Matroska => "audio/webm"@,
        ContainerKind::Mp3 => "audio/mpeg"@,
        ContainerKind::Mp4 => "audio/m4a"@,
    }
}

impl ContainerKind {
    /// The container kind of a lowercased file extension, if any.
    pub fn from_ext(ext: &str) -> (r: Option<ContainerKind>)
        ensures
            r == spec_container_from_ext(ext@),
    {
        if str_eq(ext, "flac") {
            Some(ContainerKind::Flac)
        } else if str_eq(ext, "ogg") || str_eq(ext, "oga") || str_eq(ext, "opus") {
            Some(ContainerKind::Ogg)
        } else if str_eq(ext, "mka") {
            Some(ContainerKind::Matroska)
        } else if str_eq(ext, "mp3") {
            Some(ContainerKind::Mp3)
        } else if str_eq(ext, "m4a") {
            Some(ContainerKind::Mp4)
        } else {
            None
        }
    }

    /// The MIME type the container is served under.
    pub fn mime_type(self) -> (r: &'static str)
        ensures
            r@ == spec_container_mime(self),
    {
        match self {
            ContainerKind::Flac => "audio/flac",
            ContainerKind::Ogg => "audio/ogg",
            ContainerKind::Matroska => "audio/webm",
            ContainerKind::Mp3 => "audio/mpeg",
            ContainerKind::Mp4 => "audio/m4a",
        }
    }
}

/// A codec identifier, as reported by the container parser.
#[derive(Clone, Copy, Debug, PartialEq, Eq, Structural)]
pub enum CodecId {
    /// FLAC.
    Flac,
    /// Vorbis.
    Vorbis,
    /// Opus.
    Opus,
    /// MPEG audio layer 3.
    Mp3,
    /// AAC.
    Aac,
    /// Any codec the receiver is not known to play in these containers.
    Other,
}

/// Why a file cannot be queued.
#[derive(Clone, Copy, Debug, PartialEq, Eq, Structural)]
pub enum AudioError {
    /// A track's codec does not belong in its container.
    UnexpectedCodec,
}

/// Whether a codec may appear in a container the player serves.
pub open spec fn spec_codec_allowed(container: ContainerKind, codec: CodecId) -> bool {
    match container {
        ContainerKind::Flac => codec == CodecId::Flac,
        ContainerKind::Ogg => codec == CodecId::Vorbis || codec == CodecId::Opus,
        ContainerKind::Matroska => codec == CodecId::Vorbis || codec == CodecId::Opus,
        ContainerKind::Mp3 => codec == CodecId::Mp3,
        ContainerKind::Mp4 => codec == CodecId::Aac,
    }
}

/// Whether a codec may appear in a container the player serves.
pub fn codec_allowed(container: ContainerKind, codec: CodecId) -> (r: bool)
    ensures
        r == spec_codec_allowed(container, codec),
{
    match container {
        ContainerKind::Flac => matches!(codec, CodecId::Flac),
        ContainerKind::Ogg | ContainerKind::Matroska => matches!(
            codec,
            CodecId::Vorbis | CodecId::Opus
        ),
        ContainerKind::Mp3 => matches!(codec, CodecId::Mp3),
        ContainerKind::Mp4 => matches!(codec, CodecId::Aac),
    }
}

/// Checks every track's codec against the container it arrived in,
/// succeeding exactly when all of them belong there.
pub fn validate_codecs(container: ContainerKind, codecs: &Vec<CodecId>) -> (r: Result<
    (),
    AudioError,
>)
    ensures
        r is Ok <==> (forall|i: int|
            0 <= i < codecs@.len() ==> spec_codec_allowed(container, codecs@[i])),
        r is Err ==> r == Err::<(), AudioError>(AudioError::UnexpectedCodec),
{
    let n = codecs.len();
    let mut i: usize = 0;
    while i < n
        invariant
            n == codecs@.len(),
            i <= n,
            forall|j: int| 0 <= j < i ==> spec_codec_allowed(container, codecs@[j]),
        decreases n - i,
    {
        if !codec_allowed(container, codecs[i]) {
            return Err(AudioError::UnexpectedCodec);
        }
        i += 1;
    }
    Ok(())
}

/// An image embedded in an audio container, kept as plain bytes until a
/// URL can be built to serve it.
#[derive(Clone, Debug)]
pub struct Visual {
    /// MIME type of the image.
    pub media_type: String,
    /// The image bytes.
    pub data: Vec<u8>,
}

/// A recognized file queued for playback: its path, the container it was
/// classified as, its converted tags, and its embedded cover image, when
/// the container carried them.
#[derive(Clone, Debug)]
pub struct AudioFile {
    /// Path of the file.
    pub path: String,
    /// The container kind its extension classified it as.
    pub kind: ContainerKind,
    /// Converted track metadata, when the container carried tags.
    pub metadata: Option<MusicTrackMediaMetadata>,
    /// The first embedded image of the container, when there is one and
    /// the tags were read from the container rather than a tag library.
    pub visual: Option<Visual>,
}

impl AudioFile {
    /// The MIME type the file is served under.
    pub fn mime_type(&self) -> (r: &'static str)
        ensures
            r@ == spec_container_mime(self.kind),
    {
        self.kind.mime_type()
    }
}

/// The tag keys the conversion reads.
#[derive(Clone, Copy, Debug, PartialEq, Eq, Structural)]
pub enum TagKey {
    /// Album the track is taken from.
    Album,
    /// Title of the track.
    TrackTitle,
    /// Artist of the album.
    AlbumArtist,
    /// Artist of the track.
    Artist,
    /// Composer of the track.
    Composer,
    /// Number of the track on the album.
    TrackNumber,
    /// Number of the disc of the album.
    DiscNumber,
    /// Release date of the track.
    ReleaseDate,
    /// Any other key; the conversion skips it.
    Other,
}

/// The value of a tag, as the container parser reported it.
#[derive(Clone, Debug)]
pub enum TagValue {
    /// A text value.
    Text(String),
    /// An unsigned number.
    UnsignedInt(u64),
    /// Any other value kind.
    Other,
}

/// One tag read from a container.
#[derive(Clone, Debug)]
pub struct Tag {
    /// The standard key the tag was recognized as.
    pub key: TagKey,
    /// The tag's value.
    pub value: TagValue,
}

/// Mathematical value of a [`TagValue`].
pub enum TagValueView {
    /// A text value.
    Text(Seq<char>),
    /// An unsigned number.
    UnsignedInt(u64),
    /// Any other value kind.
    Other,
}

/// Mathematical value of a [`Tag`].
pub struct TagView {
    /// The standard key the tag was recognized as.
    pub key: TagKey,
    /// The tag's value.
    pub value: TagValueView,
}

impl View for TagValue {
    type V = TagValueView;

    open spec fn view(&self) -> TagValueView {
        match self {
            TagValue::Text(s) => TagValueView::Text(s@),
            TagValue::UnsignedInt(u) => TagValueView::UnsignedInt(*u),
            TagValue::Other => TagValueView::Other,
        }
    }
}

impl View for Tag {
    type V = TagView;

    open spec fn view(&self) -> TagView {
        TagView { key: self.key, value: self.value@ }
    }
}

impl DeepView for Tag {
    type V = TagView;

    open spec fn deep_view(&self) -> TagView {
        self@
    }
}

/// The text of a tag value, if it is one.
pub open spec fn spec_text_value(v: TagValueView) -> Option<Seq<char>> {
    match v {
        TagValueView::Text(s) => Some(s),
        _ => None,
    }
}

/// The number of a tag value, if it is one and fits 32 bits.
pub open spec fn spec_u32_value(v: TagValueView) -> Option<u32> {
    match v {
        TagValueView::UnsignedInt(u) => if u <= u32::MAX {
            Some(u as u32)
        } else {
            None
        },
        _ => None,
    }
}

/// The text of a tag, if its value is text.
fn string_value(tag: &Tag) -> (r: Option<String>)
    ensures
        (match r {
            Some(s) => Some(s@),
            None => None,
        }) == spec_text_value(tag.value@),
{
    match &tag.value {
        TagValue::Text(s) => Some(s.clone()),
        _ => None,
    }
}

/// The number of a tag, if its value is one and fits 32 bits.
fn u32_value(tag: &Tag) -> (r: Option<u32>)
    ensures
        r == spec_u32_value(tag.value@),
{
    match &tag.value {
        TagValue::UnsignedInt(u) => {
            if *u <= u32::MAX as u64 {
                Some(*u as u32)
            } else {
                None
            }
        },
        _ => None,
    }
}

/// Track metadata with no field set and no image.
pub open spec fn spec_empty_track_metadata() -> MusicTrackMediaMetadataView {
    MusicTrackMediaMetadataView {
        album_name: None,
        title: None,
        album_artist: None,
        artist: None,
        composer: None,
        track_number: None,
        disc_number: None,
        images: Seq::empty(),
        release_date: None,
    }
}

/// One tag applied over the metadata built so far: the field its key names
/// is replaced by the tag's value, so a repeated tag's last occurrence
/// wins; other keys change nothing.
pub open spec fn spec_apply_tag(
    m: MusicTrackMediaMetadataView,
    t: TagView,
) -> MusicTrackMediaMetadataView {
    match t.key {
        TagKey::Album => MusicTrackMediaMetadataView { album_name: spec_text_value(t.value), ..m },
        TagKey::TrackTitle => MusicTrackMediaMetadataView { title: spec_text_value(t.value), ..m },
        TagKey::AlbumArtist => MusicTrackMediaMetadataView {
            album_artist: spec_text_value(t.value),
            ..m
        },
        TagKey::Artist => MusicTrackMediaMetadataView { artist: spec_text_value(t.value), ..m },
        TagKey::Composer => MusicTrackMediaMetadataView { composer: spec_text_value(t.value), ..m },
        TagKey::TrackNumber => MusicTrackMediaMetadataView {
            track_number: spec_u32_value(t.value),
            ..m
        },
        TagKey::DiscNumber => MusicTrackMediaMetadataView {
            disc_number: spec_u32_value(t.value),
            ..m
        },
        TagKey::ReleaseDate => MusicTrackMediaMetadataView {
            release_date: spec_text_value(t.value),
            ..m
        },
        TagKey::Other => m,
    }
}

/// The tags folded left to right over the metadata built so far.
pub open spec fn spec_convert_tags(
    m: MusicTrackMediaMetadataView,
    tags: Seq<TagView>,
) -> MusicTrackMediaMetadataView
    decreases tags.len(),
{
    if tags.len() == 0 {
        m
    } else {
        spec_convert_tags(spec_apply_tag(m, tags[0]), tags.drop_first())
    }
}

/// Converts container tags to cast track metadata, the last occurrence of
/// a repeated tag winning. Images are not taken from the tags; they are
/// associated later, by URL.
pub fn convert_metadata(tags: &Vec<Tag>) -> (r: MusicTrackMediaMetadata)
    ensures
        r@ == spec_convert_tags(spec_empty_track_metadata(), tags.deep_view()),
{
    let ghost all = tags.deep_view();
    let mut m = MusicTrackMediaMetadata {
        album_name: None,
        title: None,
        album_artist: None,
        artist: None,
        composer: None,
        track_number: None,
        disc_number: None,
        images: Vec::new(),
        release_date: None,
    };
    proof {
        assert(m@.images =~= Seq::<Seq<char>>::empty());
        assert(all.skip(0) =~= all);
    }
    let n = tags.len();
    let mut i: usize = 0;
    while i < n
        invariant
            all == tags.deep_view(),
            n == tags@.len(),
            i <= n,
            spec_convert_tags(spec_empty_track_metadata(), all) == spec_convert_tags(
                m@,
                all.skip(i as int),
            ),
        decreases n - i,
    {
        proof {
            assert(all.skip(i as int)[0] == tags@[i as int]@);
            assert(all.skip(i as int).drop_first() =~= all.skip(i + 1 as int));
        }
        let tag = &tags[i];
        match tag.key {
            TagKey::Album => {
                m.album_name = string_value(tag);
            },
            TagKey::TrackTitle => {
                m.title = string_value(tag);
            },
            TagKey::AlbumArtist => {
                m.album_artist = string_value(tag);
            },
            TagKey::Artist => {
                m.artist = string_value(tag);
            },
            TagKey::Composer => {
                m.composer = string_value(tag);
            },
            TagKey::TrackNumber => {
                m.track_number = u32_value(tag);
            },
            TagKey::DiscNumber => {
                m.disc_number = u32_value(tag);
            },
            TagKey::ReleaseDate => {
                m.release_date = string_value(tag);
            },
            TagKey::Other => {},
        }
        i += 1;
    }
    proof {
        assert(all.skip(n as int) =~= Seq::<TagView>::empty());
    }
    m
}

/// The decimal digits of a number, most significant first.
pub open spec fn spec_decimal(v: int) -> Seq<char>
    recommends
        v >= 0,
    decreases v,
{
    if v <= 9 {
        seq![spec_digit_char(v)]
    } else {
        spec_decimal(v / 10).push(spec_digit_char(v % 10))
    }
}

/// The character of one decimal digit.
pub open spec fn spec_digit_char(d: int) -> char
    recommends
        0 <= d <= 9,
{
    (('0' as u8) + d) as char
}

/// Appends one decimal digit.
fn push_digit(s: &mut String, d: u8)
    requires
        d <= 9,
    ensures
        final(s)@ == old(s)@ + seq![spec_digit_char(d as int)],
{
    let digit: &'static str = match d {
        0 => "0",
        1 => "1",
        2 => "2",
        3 => "3",
        4 => "4",
        5 => "5",
        6 => "6",
        7 => "7",
        8 => "8",
        _ => "9",
    };
    proof {
        reveal_strlit("0");
        reveal_strlit("1");
        reveal_strlit("2");
        reveal_strlit("3");
        reveal_strlit("4");
        reveal_strlit("5");
        reveal_strlit("6");
        reveal_strlit("7");
        reveal_strlit("8");
        reveal_strlit("9");
        assert(digit@ =~= seq![spec_digit_char(d as int)]);
    }
    s.append(digit);
}

/// Appends the decimal digits of a number.
fn append_decimal(s: &mut String, v: u16)
    ensures
        final(s)@ == old(s)@ + spec_decimal(v as int),
    decreases v,
{
    if v >= 10 {
        append_decimal(s, v / 10);
        push_digit(s, (v % 10) as u8);
        proof {
            assert(final(s)@ =~= old(s)@ + spec_decimal(v as int));
        }
    } else {
        push_digit(s, v as u8);
    }
}

/// Formats a release date as `year-month-day`, each part in plain decimal
/// with no padding.
pub fn format_release_date(year: u16, month: u16, day: u16) -> (r: String)
    ensures
        r@ == spec_decimal(year as int) + "-"@ + spec_decimal(month as int) + "-"@ + spec_decimal(
            day as int,
        ),
{
    let mut s = String::new();
    append_decimal(&mut s, year);
    s.append("-");
    append_decimal(&mut s, month);
    s.append("-");
    append_decimal(&mut s, day);
    proof {
        assert(s@ =~= Seq::<char>::empty() + spec_decimal(year as int) + "-"@ + spec_decimal(
            month as int,
        ) + "-"@ + spec_decimal(day as int));
        assert(s@ =~= spec_decimal(year as int) + "-"@ + spec_decimal(month as int) + "-"@
            + spec_decimal(day as int));
    }
    s
}

} // verus!
