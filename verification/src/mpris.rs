//! Value types and inbound-call translation of the desktop media-control
//! bus interface.
//!
//! The session republishes its state through a standard media-player bus
//! contract. This module holds the bus-side value types the projections
//! produce (playback status, loop status, track metadata, changed
//! properties), the translation of inbound method calls into session
//! commands, and the constant root-level properties.

use vstd::prelude::*;

use crate::status::RepeatMode;

verus! {

/// Externally visible playback state of the player.
#[derive(Clone, Copy, Debug, PartialEq, Eq, Structural)]
pub enum PlaybackStatus {
    /// A track is playing or about to play.
    Playing,
    /// A track is paused.
    Paused,
    /// There is no track to play.
    Stopped,
}

/// Externally visible loop setting of the player.
#[derive(Clone, Copy, Debug, PartialEq, Eq, Structural)]
pub enum LoopStatus {
    /// Playback stops when the queue runs out.
    NoLoop,
    /// The current track repeats forever.
    Track,
    /// The whole queue repeats.
    Playlist,
}

/// Why the metadata projection failed.
#[derive(Clone, Copy, Debug, PartialEq, Eq, Structural)]
pub enum MetadataError {
    /// The reported track number exceeds the bus numeric type's range.
    TrackNumberOutOfRange,
    /// The reported disc number exceeds the bus numeric type's range.
    DiscNumberOutOfRange,
}

/// Track metadata as published on the bus.
#[derive(Clone, Debug)]
pub struct Metadata {
    /// Album the track is taken from.
    pub album: Option<String>,
    /// Title of the track.
    pub title: Option<String>,
    /// Artists of the album; the session reports at most one.
    pub album_artist: Option<Vec<String>>,
    /// Artists of the track; the session reports at most one.
    pub artist: Option<Vec<String>>,
    /// Composers of the track; the session reports at most one.
    pub composer: Option<Vec<String>>,
    /// Number of the track on the album.
    pub track_number: Option<i32>,
    /// Number of the disc of the album.
    pub disc_number: Option<i32>,
    /// URL of an image associated with the content.
    pub art_url: Option<String>,
    /// Free-text release date of the content.
    pub content_created: Option<String>,
    /// Duration of the track in microseconds.
    pub length_micros: Option<i64>,
}

/// Mathematical value of a [`Metadata`], with every text field as a
/// character sequence.
pub struct MetadataView {
    /// Album the track is taken from.
    pub album: Option<Seq<char>>,
    /// Title of the track.
    pub title: Option<Seq<char>>,
    /// Artists of the album.
    pub album_artist: Option<Seq<Seq<char>>>,
    /// Artists of the track.
    pub artist: Option<Seq<Seq<char>>>,
    /// Composers of the track.
    pub composer: Option<Seq<Seq<char>>>,
    /// Number of the track on the album.
    pub track_number: Option<i32>,
    /// Number of the disc of the album.
    pub disc_number: Option<i32>,
    /// URL of an image associated with the content.
    pub art_url: Option<Seq<char>>,
    /// Free-text release date of the content.
    pub content_created: Option<Seq<char>>,
    /// Duration of the track in microseconds.
    pub length_micros: Option<i64>,
}

/// The value of an optional text field.
pub open spec fn opt_view(s: Option<String>) -> Option<Seq<char>> {
    match s {
        Some(s) => Some(s@),
        None => None,
    }
}

/// The value of an optional list of text fields.
pub open spec fn opt_list_view(s: Option<Vec<String>>) -> Option<Seq<Seq<char>>> {
    match s {
        Some(v) => Some(v.deep_view()),
        None => None,
    }
}

impl View for Metadata {
    type V = MetadataView;

    open spec fn view(&self) -> MetadataView {
        MetadataView {
            album: opt_view(self.album),
            title: opt_view(self.title),
            album_artist: opt_list_view(self.album_artist),
            artist: opt_list_view(self.artist),
            composer: opt_list_view(self.composer),
            track_number: self.track_number,
            disc_number: self.disc_number,
            art_url: opt_view(self.art_url),
            content_created: opt_view(self.content_created),
            length_micros: self.length_micros,
        }
    }
}

impl Metadata {
    /// Metadata with every field unset, as published when no track
    /// descriptor is known.
    pub fn empty() -> (r: Metadata)
        ensures
            r@ == spec_empty_metadata(),
    {
        Metadata {
            album: None,
            title: None,
            album_artist: None,
            artist: None,
            composer: None,
            track_number: None,
            disc_number: None,
            art_url: None,
            content_created: None,
            length_micros: None,
        }
    }
}

impl Metadata {
    /// Copies the metadata, field by field.
    pub fn duplicate(&self) -> (r: Metadata)
        ensures
            r@ == self@,
    {
        Metadata {
            album: dup_opt_string(&self.album),
            title: dup_opt_string(&self.title),
            album_artist: dup_opt_string_list(&self.album_artist),
            artist: dup_opt_string_list(&self.artist),
            composer: dup_opt_string_list(&self.composer),
            track_number: self.track_number,
            disc_number: self.disc_number,
            art_url: dup_opt_string(&self.art_url),
            content_created: dup_opt_string(&self.content_created),
            length_micros: self.length_micros,
        }
    }
}

/// Copies an optional text field.
fn dup_opt_string(a: &Option<String>) -> (r: Option<String>)
    ensures
        r == *a,
{
    match a {
        Some(s) => Some(s.clone()),
        None => None,
    }
}

/// Copies an optional list of text fields.
fn dup_opt_string_list(a: &Option<Vec<String>>) -> (r: Option<Vec<String>>)
    ensures
        opt_list_view(r) == opt_list_view(*a),
{
    match a {
        Some(v) => {
            let n = v.len();
            let mut c: Vec<String> = Vec::new();
            let mut i: usize = 0;
            while i < n
                invariant
                    *a == Some(*v),
                    n == v@.len(),
                    i <= n,
                    c@.len() == i,
                    forall|j: int| 0 <= j < i ==> c@[j] == v@[j],
                decreases n - i,
            {
                c.push(v[i].clone());
                i += 1;
            }
            proof {
                assert(c.deep_view() =~= v.deep_view());
            }
            Some(c)
        },
        None => None,
    }
}

/// The value of [`Metadata::empty`].
pub open spec fn spec_empty_metadata() -> MetadataView {
    MetadataView {
        album: None,
        title: None,
        album_artist: None,
        artist: None,
        composer: None,
        track_number: None,
        disc_number: None,
        art_url: None,
        content_created: None,
        length_micros: None,
    }
}

/// Whether two optional text fields hold the same value.
fn opt_string_eq(a: &Option<String>, b: &Option<String>) -> (r: bool)
    ensures
        r == (opt_view(*a) == opt_view(*b)),
{
    match (a, b) {
        (Some(x), Some(y)) => x.eq(y),
        (None, None) => true,
        _ => false,
    }
}

/// Whether two optional text lists hold the same values in the same order.
fn opt_string_list_eq(a: &Option<Vec<String>>, b: &Option<Vec<String>>) -> (r: bool)
    ensures
        r == (opt_list_view(*a) == opt_list_view(*b)),
{
    match (a, b) {
        (Some(x), Some(y)) => {
            if x.len() != y.len() {
                proof {
                    assert(x.deep_view().len() == x@.len());
                    assert(y.deep_view().len() == y@.len());
                }
                return false;
            }
            let n = x.len();
            let mut i: usize = 0;
            while i < n
                invariant
                    *a == Some(*x),
                    *b == Some(*y),
                    n == x@.len(),
                    n == y@.len(),
                    i <= n,
                    forall|j: int| 0 <= j < i ==> x.deep_view()[j] == y.deep_view()[j],
                decreases n - i,
            {
                proof {
                    assert(x.deep_view()[i as int] == x@[i as int]@);
                    assert(y.deep_view()[i as int] == y@[i as int]@);
                }
                if !x[i].eq(&y[i]) {
                    proof {
                        assert(x.deep_view()[i as int] != y.deep_view()[i as int]);
                        assert(*a == Some(*x));
                        assert(*b == Some(*y));
                        assert(x.deep_view() != y.deep_view());
                    }
                    return false;
                }
                i += 1;
            }
            proof {
                assert(x.deep_view() =~= y.deep_view());
            }
            true
        },
        (None, None) => true,
        _ => false,
    }
}

/// Whether two optional 32-bit numbers are equal.
fn opt_i32_eq(a: &Option<i32>, b: &Option<i32>) -> (r: bool)
    ensures
        r == (*a == *b),
{
    match (a, b) {
        (Some(x), Some(y)) => *x == *y,
        (None, None) => true,
        _ => false,
    }
}

/// Whether two optional 64-bit numbers are equal.
fn opt_i64_eq(a: &Option<i64>, b: &Option<i64>) -> (r: bool)
    ensures
        r == (*a == *b),
{
    match (a, b) {
        (Some(x), Some(y)) => *x == *y,
        (None, None) => true,
        _ => false,
    }
}

impl PartialEq for Metadata {
    /// Two metadata sets are equal when every published field carries the
    /// same value.
    fn eq(&self, other: &Metadata) -> (r: bool) {
        opt_string_eq(&self.album, &other.album) && opt_string_eq(&self.title, &other.title)
            && opt_string_list_eq(&self.album_artist, &other.album_artist) && opt_string_list_eq(
            &self.artist,
            &other.artist,
        ) && opt_string_list_eq(&self.composer, &other.composer) && opt_i32_eq(
            &self.track_number,
            &other.track_number,
        ) && opt_i32_eq(&self.disc_number, &other.disc_number) && opt_string_eq(
            &self.art_url,
            &other.art_url,
        ) && opt_string_eq(&self.content_created, &other.content_created) && opt_i64_eq(
            &self.length_micros,
            &other.length_micros,
        )
    }
}

impl vstd::std_specs::cmp::PartialEqSpecImpl for Metadata {
    open spec fn obeys_eq_spec() -> bool {
        true
    }

    open spec fn eq_spec(&self, other: &Metadata) -> bool {
        self@ == other@
    }
}

/// One changed property, as carried in a batched change notification.
#[derive(Clone, Debug)]
pub enum Property {
    /// The playback status changed.
    PlaybackStatus(PlaybackStatus),
    /// The loop status changed.
    LoopStatus(LoopStatus),
    /// The track metadata changed.
    Metadata(Metadata),
    /// Whether a following track exists changed.
    CanGoNext(bool),
    /// Whether a preceding track exists changed.
    CanGoPrevious(bool),
    /// The shuffle setting changed.
    Shuffle(bool),
    /// The volume changed, in thousandths of full scale.
    Volume(u32),
}

/// Mathematical value of a [`Property`].
pub enum PropertyView {
    /// The playback status changed.
    PlaybackStatus(PlaybackStatus),
    /// The loop status changed.
    LoopStatus(LoopStatus),
    /// The track metadata changed.
    Metadata(MetadataView),
    /// Whether a following track exists changed.
    CanGoNext(bool),
    /// Whether a preceding track exists changed.
    CanGoPrevious(bool),
    /// The shuffle setting changed.
    Shuffle(bool),
    /// The volume changed, in thousandths of full scale.
    Volume(u32),
}

impl View for Property {
    type V = PropertyView;

    open spec fn view(&self) -> PropertyView {
        match self {
            Property::PlaybackStatus(s) => PropertyView::PlaybackStatus(*s),
            Property::LoopStatus(s) => PropertyView::LoopStatus(*s),
            Property::Metadata(m) => PropertyView::Metadata(m@),
            Property::CanGoNext(b) => PropertyView::CanGoNext(*b),
            Property::CanGoPrevious(b) => PropertyView::CanGoPrevious(*b),
            Property::Shuffle(b) => PropertyView::Shuffle(*b),
            Property::Volume(v) => PropertyView::Volume(*v),
        }
    }
}

/// A media-channel command the session can send to the receiver.
#[derive(Clone, Copy, Debug, PartialEq, Eq, Structural)]
pub enum MediaCommand {
    /// Jump to the next queue entry.
    Next,
    /// Jump to the previous queue entry.
    Prev,
    /// Resume playback.
    Play,
    /// Pause playback.
    Pause,
    /// Stop playback.
    Stop,
    /// Seek by an offset from the current position.
    SeekRelative {
        /// Offset in microseconds, negative to seek backwards.
        offset_micros: i64,
    },
    /// Seek to an absolute position.
    SeekAbsolute {
        /// Position in microseconds since the start of the content.
        position_micros: i64,
    },
    /// Update the queue's repeat mode.
    SetRepeatMode(RepeatMode),
    /// Update the queue's shuffle flag.
    SetShuffle(bool),
}

/// What an inbound bus method call asks the session to do.
#[derive(Clone, Copy, Debug, PartialEq, Eq, Structural)]
pub enum CommandPlan {
    /// Send a media-channel command and publish its reply snapshot.
    Media(MediaCommand),
    /// Send a receiver-level volume command, then re-query the full
    /// receiver status and publish that. The volume command's own reply is
    /// an abbreviated echo and must never be published as a status.
    SetVolumeThenQueryStatus {
        /// Requested level in thousandths of full scale.
        level: u32,
    },
    /// The call is not supported and is answered with a failure.
    Unsupported,
}

/// An inbound method call of the bus player interface.
#[derive(Clone, Copy, Debug, PartialEq, Eq, Structural)]
pub enum PlayerMethod {
    /// Jump to the next track.
    Next,
    /// Jump to the previous track.
    Previous,
    /// Pause playback.
    Pause,
    /// Toggle between playing and paused.
    PlayPause,
    /// Stop playback.
    Stop,
    /// Resume playback.
    Play,
    /// Seek by an offset from the current position.
    Seek {
        /// Offset in microseconds, negative to seek backwards.
        offset_micros: i64,
    },
    /// Seek to an absolute position within the current track.
    SetPosition {
        /// Position in microseconds since the start of the track.
        position_micros: i64,
    },
    /// Load an ad hoc URI; never supported by this session.
    OpenUri,
    /// Change the loop setting.
    SetLoopStatus(LoopStatus),
    /// Change the shuffle setting.
    SetShuffle(bool),
    /// Change the receiver volume.
    SetVolume {
        /// Requested level in thousandths of full scale.
        level: u32,
    },
}

/// The repeat mode that a requested loop status translates to.
pub fn loop_status_to_repeat_mode(status: LoopStatus) -> (r: RepeatMode)
    ensures
        r == spec_loop_status_to_repeat_mode(status),
{
    match status {
        LoopStatus::NoLoop => RepeatMode::Off,
        LoopStatus::Track => RepeatMode::Single,
        LoopStatus::Playlist => RepeatMode::All,
    }
}

/// The repeat mode each loop status stands for.
pub open spec fn spec_loop_status_to_repeat_mode(status: LoopStatus) -> RepeatMode {
    match status {
        LoopStatus::NoLoop => RepeatMode::Off,
        LoopStatus::Track => RepeatMode::Single,
        LoopStatus::Playlist => RepeatMode::All,
    }
}

/// The command plan of each inbound method call, given the current playback
/// status projection.
pub open spec fn spec_method_command(method: PlayerMethod, playback: PlaybackStatus) -> CommandPlan {
    match method {
        PlayerMethod::Next => CommandPlan::Media(MediaCommand::Next),
        PlayerMethod::Previous => CommandPlan::Media(MediaCommand::Prev),
        PlayerMethod::Pause => CommandPlan::Media(MediaCommand::Pause),
        PlayerMethod::PlayPause => if playback == PlaybackStatus::Playing {
            CommandPlan::Media(MediaCommand::Pause)
        } else {
            CommandPlan::Media(MediaCommand::Play)
        },
        PlayerMethod::Stop => CommandPlan::Media(MediaCommand::Stop),
        PlayerMethod::Play => CommandPlan::Media(MediaCommand::Play),
        PlayerMethod::Seek { offset_micros } => CommandPlan::Media(
            MediaCommand::SeekRelative { offset_micros },
        ),
        PlayerMethod::SetPosition { position_micros } => CommandPlan::Media(
            MediaCommand::SeekAbsolute { position_micros },
        ),
        PlayerMethod::OpenUri => CommandPlan::Unsupported,
        PlayerMethod::SetLoopStatus(status) => CommandPlan::Media(
            MediaCommand::SetRepeatMode(spec_loop_status_to_repeat_mode(status)),
        ),
        PlayerMethod::SetShuffle(shuffle) => CommandPlan::Media(MediaCommand::SetShuffle(shuffle)),
        PlayerMethod::SetVolume { level } => CommandPlan::SetVolumeThenQueryStatus { level },
    }
}

/// Translates an inbound method call into the command the session sends.
///
/// `PlayPause` branches on the current playback-status projection: a playing
/// session is paused, a paused or stopped one resumes. `OpenUri` is never
/// supported: the session does not load ad hoc URIs into an existing queue.
pub fn method_command(method: PlayerMethod, playback: PlaybackStatus) -> (r: CommandPlan)
    ensures
        r == spec_method_command(method, playback),
{
    match method {
        PlayerMethod::Next => CommandPlan::Media(MediaCommand::Next),
        PlayerMethod::Previous => CommandPlan::Media(MediaCommand::Prev),
        PlayerMethod::Pause => CommandPlan::Media(MediaCommand::Pause),
        PlayerMethod::PlayPause => {
            if playback == PlaybackStatus::Playing {
                CommandPlan::Media(MediaCommand::Pause)
            } else {
                CommandPlan::Media(MediaCommand::Play)
            }
        },
        PlayerMethod::Stop => CommandPlan::Media(MediaCommand::Stop),
        PlayerMethod::Play => CommandPlan::Media(MediaCommand::Play),
        PlayerMethod::Seek { offset_micros } => CommandPlan::Media(
            MediaCommand::SeekRelative { offset_micros },
        ),
        PlayerMethod::SetPosition { position_micros } => CommandPlan::Media(
            MediaCommand::SeekAbsolute { position_micros },
        ),
        PlayerMethod::OpenUri => CommandPlan::Unsupported,
        PlayerMethod::SetLoopStatus(status) => CommandPlan::Media(
            MediaCommand::SetRepeatMode(loop_status_to_repeat_mode(status)),
        ),
        PlayerMethod::SetShuffle(shuffle) => CommandPlan::Media(MediaCommand::SetShuffle(shuffle)),
        PlayerMethod::SetVolume { level } => CommandPlan::SetVolumeThenQueryStatus { level },
    }
}

/// The absolute position a relative seek aims at: the current position
/// offset by the requested amount, held within the time range.
pub open spec fn spec_seek_target(position_micros: i64, offset_micros: i64) -> i64 {
    let target = position_micros + offset_micros;
    if target > i64::MAX {
        i64::MAX
    } else if target < i64::MIN {
        i64::MIN
    } else {
        target as i64
    }
}

/// Resolves a relative seek against the current playback position, for a
/// device link that only seeks to absolute positions.
pub fn seek_target(position_micros: i64, offset_micros: i64) -> (r: i64)
    ensures
        r == spec_seek_target(position_micros, offset_micros),
{
    if offset_micros >= 0 {
        if position_micros > i64::MAX - offset_micros {
            i64::MAX
        } else {
            position_micros + offset_micros
        }
    } else {
        if position_micros < i64::MIN - offset_micros {
            i64::MIN
        } else {
            position_micros + offset_micros
        }
    }
}

/// Name under which the player announces itself on the bus.
pub fn identity() -> (r: String)
    ensures
        r@ == "Joujou"@,
{
    "Joujou".to_owned()
}

/// The player can be asked to quit.
pub fn can_quit() -> (r: bool)
    ensures
        r,
{
    true
}

/// The player has no window to raise.
pub fn can_raise() -> (r: bool)
    ensures
        !r,
{
    false
}

/// The player is never fullscreen.
pub fn fullscreen() -> (r: bool)
    ensures
        !r,
{
    false
}

/// Fullscreen cannot be set.
pub fn can_set_fullscreen() -> (r: bool)
    ensures
        !r,
{
    false
}

/// The player exposes no track list interface.
pub fn has_track_list() -> (r: bool)
    ensures
        !r,
{
    false
}

/// The player installs no desktop entry.
pub fn desktop_entry() -> (r: String)
    ensures
        r@ == Seq::<char>::empty(),
{
    String::new()
}

/// No URI scheme is supported: ad hoc URIs cannot be opened.
pub fn supported_uri_schemes() -> (r: Vec<String>)
    ensures
        r@.len() == 0,
{
    Vec::new()
}

/// No MIME type is supported: ad hoc URIs cannot be opened.
pub fn supported_mime_types() -> (r: Vec<String>)
    ensures
        r@.len() == 0,
{
    Vec::new()
}

/// There is always a current track: the session never starts with an empty
/// queue.
pub fn can_play() -> (r: bool)
    ensures
        r,
{
    true
}

/// Every queue entry is pausable: live streams are never loaded.
pub fn can_pause() -> (r: bool)
    ensures
        r,
{
    true
}

/// Every queue entry is seekable.
pub fn can_seek() -> (r: bool)
    ensures
        r,
{
    true
}

/// The session always accepts control calls.
pub fn can_control() -> (r: bool)
    ensures
        r,
{
    true
}

} // verus!
