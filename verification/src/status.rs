//! Data model for the playback session: the media-status and receiver-status
//! snapshots that the receiver pushes over the device link.
//!
//! Times are carried as whole microseconds and the volume level as thousandths
//! of full scale, so that every field is a plain value that contracts can
//! speak about exactly.

use vstd::prelude::*;

verus! {

/// State of the remote player.
#[derive(Clone, Copy, Debug, PartialEq, Eq, Structural)]
pub enum PlayerState {
    /// Player has no content to play back.
    Idle,
    /// Player is actively playing content.
    Playing,
    /// Player is in play mode but not actively playing content.
    Buffering,
    /// Player is paused.
    Paused,
}

/// Why playback went idle, when the receiver knows.
#[derive(Clone, Copy, Debug, PartialEq, Eq, Structural)]
pub enum IdleReason {
    /// A sender stopped playback with a stop command.
    Cancelled,
    /// A sender requested playing a different media.
    Interrupted,
    /// The media playback completed.
    Finished,
    /// The media was interrupted due to an error.
    Error,
}

/// Player state nested under an idle state, used while another media loads.
///
/// The enum deliberately has a single inhabitant: a new receiver-side state
/// must be a compile-time-visible change here, never silently passed through.
#[derive(Clone, Copy, Debug, PartialEq, Eq, Structural)]
pub enum ExtendedPlayerState {
    /// Player is loading the next media.
    Loading,
}

/// Secondary status used when the player is idle but also loading
/// another media.
#[derive(Clone, Copy, Debug, PartialEq, Eq, Structural)]
pub struct ExtendedStatus {
    /// State of the loading player.
    pub player_state: ExtendedPlayerState,
    /// Playback session the loading media belongs to.
    pub media_session_id: Option<i32>,
}

/// How the queue repeats once it runs out of items.
#[derive(Clone, Copy, Debug, PartialEq, Eq, Structural)]
pub enum RepeatMode {
    /// Play the queue once and stop.
    Off,
    /// Repeat the whole queue.
    All,
    /// Repeat the current item forever.
    Single,
    /// Repeat the whole queue, reshuffling it at each pass.
    AllAndShuffle,
}

/// One entry of the receiver-side queue, as reported in a status push.
#[derive(Clone, Copy, Debug, PartialEq, Eq, Structural)]
pub struct QueueItem {
    /// Identifier of the entry within the queue, when assigned.
    pub item_id: Option<i32>,
}

/// Queue-wide settings, distinct from per-item fields.
#[derive(Clone, Copy, Debug, PartialEq, Eq, Structural)]
pub struct QueueData {
    /// Whether the queue is played in shuffled order.
    pub shuffle: bool,
}

/// An image associated with the content, by URL.
#[derive(Clone, Debug)]
pub struct Image {
    /// URL of the image.
    pub url: String,
}

/// Structured metadata of a music track.
#[derive(Clone, Debug)]
pub struct MusicTrackMediaMetadata {
    /// Album or collection from which the track is taken.
    pub album_name: Option<String>,
    /// Name of the track.
    pub title: Option<String>,
    /// Name of the artist associated with the album.
    pub album_artist: Option<String>,
    /// Name of the artist associated with the track.
    pub artist: Option<String>,
    /// Name of the composer associated with the track.
    pub composer: Option<String>,
    /// Number of the track on the album.
    pub track_number: Option<u32>,
    /// Number of the volume (for example, a disc) of the album.
    pub disc_number: Option<u32>,
    /// Zero or more URLs to an image associated with the content.
    pub images: Vec<Image>,
    /// Free-text release date of the content.
    pub release_date: Option<String>,
}

/// Mathematical value of a [`MusicTrackMediaMetadata`]: every text field as
/// a character sequence and the images by their URLs.
pub struct MusicTrackMediaMetadataView {
    /// Album or collection from which the track is taken.
    pub album_name: Option<Seq<char>>,
    /// Name of the track.
    pub title: Option<Seq<char>>,
    /// Name of the artist associated with the album.
    pub album_artist: Option<Seq<char>>,
    /// Name of the artist associated with the track.
    pub artist: Option<Seq<char>>,
    /// Name of the composer associated with the track.
    pub composer: Option<Seq<char>>,
    /// Number of the track on the album.
    pub track_number: Option<u32>,
    /// Number of the volume of the album.
    pub disc_number: Option<u32>,
    /// URLs of the images associated with the content.
    pub images: Seq<Seq<char>>,
    /// Free-text release date of the content.
    pub release_date: Option<Seq<char>>,
}

impl View for MusicTrackMediaMetadata {
    type V = MusicTrackMediaMetadataView;

    open spec fn view(&self) -> MusicTrackMediaMetadataView {
        MusicTrackMediaMetadataView {
            album_name: match self.album_name {
                Some(s) => Some(s@),
                None => None,
            },
            title: match self.title {
                Some(s) => Some(s@),
                None => None,
            },
            album_artist: match self.album_artist {
                Some(s) => Some(s@),
                None => None,
            },
            artist: match self.artist {
                Some(s) => Some(s@),
                None => None,
            },
            composer: match self.composer {
                Some(s) => Some(s@),
                None => None,
            },
            track_number: self.track_number,
            disc_number: self.disc_number,
            images: Seq::new(self.images@.len(), |i: int| self.images@[i].url@),
            release_date: match self.release_date {
                Some(s) => Some(s@),
                None => None,
            },
        }
    }
}

/// Generic, music-track, or other structured metadata of a media stream.
#[derive(Clone, Debug)]
pub enum MediaMetadata {
    /// Metadata of a music track.
    MusicTrack(MusicTrackMediaMetadata),
    /// Any other metadata kind; the session carries none of its fields.
    Other,
}

/// Description of a media stream.
#[derive(Clone, Debug)]
pub struct Media {
    /// Service-specific identifier of the loaded content, usually a URL.
    pub content_id: String,
    /// MIME content type of the media being played.
    pub content_type: String,
    /// Structured metadata of the content, when known.
    pub metadata: Option<MediaMetadata>,
    /// Duration of the stream in microseconds, when known.
    pub duration_micros: Option<i64>,
}

/// Status of one tracked playback session, as merged into the snapshot store.
#[derive(Clone, Debug)]
pub struct MediaSnapshot {
    /// Identity of the playback session this snapshot belongs to.
    pub media_session_id: i32,
    /// State of the player.
    pub player_state: PlayerState,
    /// Why the player is idle, present only when it is.
    pub idle_reason: Option<IdleReason>,
    /// Secondary status while idle and loading another media.
    pub extended_status: Option<ExtendedStatus>,
    /// Queue entries; may be absent on partial updates.
    pub items: Option<Vec<QueueItem>>,
    /// Identifier of the currently playing queue entry.
    pub current_item_id: Option<i32>,
    /// Description of the content being played; may be absent on partial
    /// updates.
    pub media: Option<Media>,
    /// Queue-wide settings; may be absent on partial updates.
    pub queue_data: Option<QueueData>,
    /// How the queue repeats.
    pub repeat_mode: Option<RepeatMode>,
    /// Playback position in microseconds since the start of the content.
    pub current_time_micros: Option<i64>,
}

/// Full scale of the receiver volume level: a level of `VOLUME_FULL`
/// stands for 1.0.
pub const VOLUME_FULL: u32 = 1000;

/// Receiver-level status: volume and mute, independent of any media session.
#[derive(Clone, Copy, Debug, PartialEq, Eq, Structural)]
pub struct ReceiverSnapshot {
    /// Volume level in thousandths of full scale, 0 ..= `VOLUME_FULL`.
    pub level: u32,
    /// Mute state of the receiver.
    pub muted: bool,
}

} // verus!
