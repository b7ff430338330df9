//! The session controller: one tracked playback session on one receiver.
//!
//! A `Player` is bound at construction to a media session id and a transport
//! id and never migrates to another session. It owns the snapshot store;
//! every status update — an inbound push or a command reply — funnels
//! through the same publish operation, so the merge rule applies uniformly.
//! The read-only projections here compute the externally visible properties
//! from the current snapshots, and the receive-loop decisions turn each
//! inbound event into a publish, a reply, or a session end.

use vstd::prelude::*;

use crate::mpris::{
    LoopStatus, Metadata, MetadataError, MetadataView, PlaybackStatus, Property, PropertyView,
};
use crate::status::{
    ExtendedPlayerState, MediaMetadata, MediaSnapshot, PlayerState, QueueItem, ReceiverSnapshot,
    RepeatMode,
};
use crate::store::{merged_media, SnapshotStore};

verus! {

/// Destination id of the receiver platform itself, before an application
/// transport is joined.
pub const DEFAULT_DESTINATION_ID: &'static str = "receiver-0";

/// The session controller.
pub struct Player {
    /// Transport id of the receiver application the session runs on.
    pub transport_id: String,
    /// Identity of the tracked playback session; inbound updates for other
    /// sessions are ignored.
    pub media_session_id: i32,
    /// The two snapshots of the session.
    pub store: SnapshotStore,
}

impl Player {
    /// Builds the controller from the initial load and status responses,
    /// bound to the session the media status belongs to.
    pub fn from_status(
        transport_id: String,
        media_status: MediaSnapshot,
        receiver_status: ReceiverSnapshot,
    ) -> (r: Player)
        ensures
            r.transport_id == transport_id,
            r.media_session_id == media_status.media_session_id,
            r.store.media == media_status,
            r.store.receiver == receiver_status,
            !r.store.media_changed,
            !r.store.receiver_changed,
    {
        let media_session_id = media_status.media_session_id;
        Player {
            transport_id,
            media_session_id,
            store: SnapshotStore::new(media_status, receiver_status),
        }
    }

    /// Current media snapshot.
    pub fn media_status(&self) -> (r: &MediaSnapshot)
        ensures
            *r == self.store.media,
    {
        self.store.current_media()
    }

    /// Publishes a media-status update — a command reply or a filtered
    /// inbound push — through the merge rule.
    pub fn set_media_status(&mut self, ms: MediaSnapshot)
        ensures
            final(self).store.media == merged_media(old(self).store.media, ms),
            final(self).store.media_changed,
            final(self).store.receiver == old(self).store.receiver,
            final(self).store.receiver_changed == old(self).store.receiver_changed,
            final(self).media_session_id == old(self).media_session_id,
            final(self).transport_id == old(self).transport_id,
    {
        self.store.publish_media(ms);
    }

    /// Current receiver snapshot.
    pub fn receiver_status(&self) -> (r: &ReceiverSnapshot)
        ensures
            *r == self.store.receiver,
    {
        self.store.current_receiver()
    }

    /// Publishes a full receiver status. Only a complete status may be
    /// published here, never a command's abbreviated echo.
    pub fn set_receiver_status(&mut self, rs: ReceiverSnapshot)
        ensures
            final(self).store.receiver == rs,
            final(self).store.receiver_changed,
            final(self).store.media == old(self).store.media,
            final(self).store.media_changed == old(self).store.media_changed,
            final(self).media_session_id == old(self).media_session_id,
            final(self).transport_id == old(self).transport_id,
    {
        self.store.publish_receiver(rs);
    }

    /// Externally visible playback status of the session.
    ///
    /// An idle player that is loading the next media of this very session
    /// reports `Playing`, so that no `Stopped` flicker shows between
    /// tracks; any other idle state reports `Stopped`. Buffering is not
    /// surfaced and reports `Playing`.
    pub fn playback_status(&self) -> (r: PlaybackStatus)
        ensures
            r == spec_playback_status(self.store.media, self.media_session_id),
    {
        let ms = self.store.current_media();
        match ms.player_state {
            PlayerState::Idle => match &ms.extended_status {
                Some(es) => match es.player_state {
                    ExtendedPlayerState::Loading => {
                        match es.media_session_id {
                            Some(id) => {
                                if id == self.media_session_id {
                                    PlaybackStatus::Playing
                                } else {
                                    PlaybackStatus::Stopped
                                }
                            },
                            None => PlaybackStatus::Stopped,
                        }
                    },
                },
                None => PlaybackStatus::Stopped,
            },
            PlayerState::Playing => PlaybackStatus::Playing,
            PlayerState::Buffering => PlaybackStatus::Playing,
            PlayerState::Paused => PlaybackStatus::Paused,
        }
    }

    /// Externally visible loop status of the session.
    ///
    /// `AllAndShuffle` has no exact counterpart and maps to `Playlist`;
    /// the shuffle half of it surfaces through the shuffle projection.
    pub fn loop_status(&self) -> (r: LoopStatus)
        ensures
            r == spec_loop_status(self.store.media),
    {
        let ms = self.store.current_media();
        match ms.repeat_mode {
            Some(RepeatMode::Off) | None => LoopStatus::NoLoop,
            Some(RepeatMode::All) => LoopStatus::Playlist,
            Some(RepeatMode::Single) => LoopStatus::Track,
            Some(RepeatMode::AllAndShuffle) => LoopStatus::Playlist,
        }
    }

    /// Whether the queue plays in shuffled order, false while the queue
    /// settings are unknown.
    pub fn shuffle_status(&self) -> (r: bool)
        ensures
            r == spec_shuffle_status(self.store.media),
    {
        let ms = self.store.current_media();
        match &ms.queue_data {
            Some(queue_data) => queue_data.shuffle,
            None => false,
        }
    }

    /// Volume of the receiver in thousandths of full scale: zero while
    /// muted, the raw level otherwise.
    pub fn volume(&self) -> (r: u32)
        ensures
            r == spec_volume(self.store.receiver),
    {
        let rs = self.store.current_receiver();
        if rs.muted {
            0
        } else {
            rs.level
        }
    }

    /// Track metadata projected from the current media descriptor.
    ///
    /// Only music-track metadata carries fields; the bus reports at most
    /// one artist, album artist and composer each, the first associated
    /// image and the stream duration. A track or disc number that exceeds
    /// the bus numeric type's range is an error, never silently truncated.
    pub fn metadata(&self) -> (r: Result<Metadata, MetadataError>)
        ensures
            match r {
                Ok(m) => spec_metadata(self.store.media) == Ok::<MetadataView, MetadataError>(m@),
                Err(e) => spec_metadata(self.store.media) == Err::<MetadataView, MetadataError>(e),
            },
    {
        let ms = self.store.current_media();
        let mut md1 = Metadata::empty();
        let media = match &ms.media {
            Some(media) => media,
            None => {
                return Ok(md1);
            },
        };
        if let Some(MediaMetadata::MusicTrack(md0)) = &media.metadata {
            let track_number = match md0.track_number {
                Some(n) => {
                    if n > i32::MAX as u32 {
                        return Err(MetadataError::TrackNumberOutOfRange);
                    }
                    Some(n as i32)
                },
                None => None,
            };
            let disc_number = match md0.disc_number {
                Some(n) => {
                    if n > i32::MAX as u32 {
                        return Err(MetadataError::DiscNumberOutOfRange);
                    }
                    Some(n as i32)
                },
                None => None,
            };
            md1.album = clone_opt_string(&md0.album_name);
            md1.title = clone_opt_string(&md0.title);
            md1.album_artist = clone_opt_single(&md0.album_artist);
            md1.artist = clone_opt_single(&md0.artist);
            md1.composer = clone_opt_single(&md0.composer);
            md1.track_number = track_number;
            md1.disc_number = disc_number;
            md1.art_url = if md0.images.len() > 0 {
                Some(md0.images[0].url.clone())
            } else {
                None
            };
            md1.content_created = clone_opt_string(&md0.release_date);
        }
        md1.length_micros = media.duration_micros;
        Ok(md1)
    }

    /// Playback position in microseconds, zero while unknown.
    pub fn position(&self) -> (r: i64)
        ensures
            r == spec_position(self.store.media),
    {
        let ms = self.store.current_media();
        match ms.current_time_micros {
            Some(t) => t,
            None => 0,
        }
    }

    /// Whether a following queue entry exists.
    ///
    /// An active repeat mode alone makes this true. Otherwise the current
    /// entry is located in the queue by its id — at its first occurrence —
    /// and a successor must exist. Without known queue items or a current
    /// item id, the projection is false.
    pub fn can_go_next(&self) -> (r: bool)
        ensures
            r == spec_can_go_next(self.store.media),
    {
        let ms = self.store.current_media();
        match ms.repeat_mode {
            Some(repeat) => if repeat != RepeatMode::Off {
                return true;
            },
            None => {},
        }
        let items = match &ms.items {
            Some(items) => items,
            None => {
                return false;
            },
        };
        let current_item_id = match ms.current_item_id {
            Some(id) => id,
            None => {
                return false;
            },
        };
        let n = items.len();
        let mut i: usize = 0;
        while i < n
            invariant
                *ms == self.store.media,
                ms.items == Some(*items),
                ms.current_item_id == Some(current_item_id),
                !spec_repeat_active(*ms),
                n == items@.len(),
                i <= n,
                forall|j: int| 0 <= j < i ==> items@[j].item_id != Some(current_item_id),
            decreases n - i,
        {
            let matches_current = match items[i].item_id {
                Some(id) => id == current_item_id,
                None => false,
            };
            if matches_current {
                proof {
                    assert(is_first_item_pos(items@, current_item_id, i as int));
                }
                if i + 1 < n {
                    proof {
                        assert(spec_has_successor(*items, current_item_id)) by {
                            assert(is_first_item_pos(items@, current_item_id, i as int) && (
                            i as int) + 1 < items@.len());
                        }
                    }
                    return true;
                }
                proof {
                    assert forall|p: int|
                        is_first_item_pos(items@, current_item_id, p) implies !(p + 1
                        < items@.len()) by {
                        lemma_first_item_pos_unique(items@, current_item_id, p, i as int);
                    }
                    assert(!spec_has_successor(*items, current_item_id));
                }
                return false;
            }
            i += 1;
        }
        proof {
            assert(!spec_has_successor(*items, current_item_id));
        }
        false
    }

    /// Whether a preceding queue entry exists.
    ///
    /// An active repeat mode alone makes this true. Otherwise the first
    /// queue entry's id must be known and differ from the current item id,
    /// and the queue must hold more than one entry. The comparison is
    /// against the first entry only, not against the entry before the
    /// current position; the asymmetry with `can_go_next` is preserved
    /// deliberately.
    pub fn can_go_previous(&self) -> (r: bool)
        ensures
            r == spec_can_go_previous(self.store.media),
    {
        let ms = self.store.current_media();
        match ms.repeat_mode {
            Some(repeat) => if repeat != RepeatMode::Off {
                return true;
            },
            None => {},
        }
        let items = match &ms.items {
            Some(items) => items,
            None => {
                return false;
            },
        };
        let current_item_id = match ms.current_item_id {
            Some(id) => id,
            None => {
                return false;
            },
        };
        if items.len() > 0 {
            match items[0].item_id {
                Some(first_id) => {
                    if first_id != current_item_id && items.len() > 1 {
                        return true;
                    }
                },
                None => {},
            }
        }
        false
    }
}

/// Whether `p` is the first position in `items` whose entry carries the
/// item id `id`.
pub open spec fn is_first_item_pos(items: Seq<QueueItem>, id: i32, p: int) -> bool {
    &&& 0 <= p < items.len()
    &&& items[p].item_id == Some(id)
    &&& forall|j: int| 0 <= j < p ==> items[j].item_id != Some(id)
}

/// The first position of an item id is unique.
pub proof fn lemma_first_item_pos_unique(items: Seq<QueueItem>, id: i32, p1: int, p2: int)
    requires
        is_first_item_pos(items, id, p1),
        is_first_item_pos(items, id, p2),
    ensures
        p1 == p2,
{
    if p1 < p2 {
        assert(items[p1].item_id == Some(id));
    } else if p2 < p1 {
        assert(items[p2].item_id == Some(id));
    }
}

/// Whether a following queue entry exists: an active repeat mode, or a
/// successor after the current entry's first occurrence in the queue.
pub open spec fn spec_can_go_next(ms: MediaSnapshot) -> bool {
    if spec_repeat_active(ms) {
        true
    } else {
        match (ms.items, ms.current_item_id) {
            (Some(items), Some(current)) => spec_has_successor(items, current),
            _ => false,
        }
    }
}

/// Whether the queue holds an entry after the first occurrence of the
/// current item id.
pub open spec fn spec_has_successor(items: Vec<QueueItem>, current: i32) -> bool {
    exists|p: int| is_first_item_pos(items@, current, p) && p + 1 < items@.len()
}

/// Whether a preceding queue entry exists: an active repeat mode, or a
/// first queue entry whose id is known and differs from the current item
/// id in a queue of more than one entry.
pub open spec fn spec_can_go_previous(ms: MediaSnapshot) -> bool {
    if spec_repeat_active(ms) {
        true
    } else {
        match (ms.items, ms.current_item_id) {
            (Some(items), Some(current)) => {
                &&& items@.len() > 1
                &&& items@[0].item_id is Some
                &&& items@[0].item_id != Some(current)
            },
            _ => false,
        }
    }
}

/// Track metadata projected from a media snapshot, or the error of a
/// number that does not fit the bus numeric type.
pub open spec fn spec_metadata(ms: MediaSnapshot) -> Result<MetadataView, MetadataError> {
    match ms.media {
        None => Ok(crate::mpris::spec_empty_metadata()),
        Some(media) => match media.metadata {
            Some(MediaMetadata::MusicTrack(md0)) => {
                if md0.track_number matches Some(n) && n > i32::MAX {
                    Err(MetadataError::TrackNumberOutOfRange)
                } else if md0.disc_number matches Some(n) && n > i32::MAX {
                    Err(MetadataError::DiscNumberOutOfRange)
                } else {
                    Ok(
                        MetadataView {
                            album: spec_opt_text(md0.album_name),
                            title: spec_opt_text(md0.title),
                            album_artist: spec_opt_single(md0.album_artist),
                            artist: spec_opt_single(md0.artist),
                            composer: spec_opt_single(md0.composer),
                            track_number: spec_opt_narrow(md0.track_number),
                            disc_number: spec_opt_narrow(md0.disc_number),
                            art_url: if md0.images@.len() > 0 {
                                Some(md0.images@[0].url@)
                            } else {
                                None
                            },
                            content_created: spec_opt_text(md0.release_date),
                            length_micros: media.duration_micros,
                        },
                    )
                }
            },
            _ => Ok(
                MetadataView {
                    album: None,
                    title: None,
                    album_artist: None,
                    artist: None,
                    composer: None,
                    track_number: None,
                    disc_number: None,
                    art_url: None,
                    content_created: None,
                    length_micros: media.duration_micros,
                },
            ),
        },
    }
}

/// The character sequence of an optional text field.
pub open spec fn spec_opt_text(s: Option<String>) -> Option<Seq<char>> {
    match s {
        Some(s) => Some(s@),
        None => None,
    }
}

/// A single-valued tag published as a one-element list.
pub open spec fn spec_opt_single(s: Option<String>) -> Option<Seq<Seq<char>>> {
    match s {
        Some(s) => Some(seq![s@]),
        None => None,
    }
}

/// An unsigned tag number narrowed to the bus numeric type.
pub open spec fn spec_opt_narrow(n: Option<u32>) -> Option<i32>
    recommends
        n matches Some(v) ==> v <= i32::MAX,
{
    match n {
        Some(v) => Some(v as i32),
        None => None,
    }
}

/// A heartbeat-channel message.
#[derive(Clone, Copy, Debug, PartialEq, Eq, Structural)]
pub enum HeartbeatMessage {
    /// The receiver asks to be answered with a pong.
    Ping,
    /// The receiver answered a ping.
    Pong,
    /// Any other heartbeat-channel payload; no effect on the session.
    Other,
}

/// A connection-channel message.
#[derive(Clone, Copy, Debug, PartialEq, Eq, Structural)]
pub enum ConnectionMessage {
    /// The peer confirmed a connection.
    Connect,
    /// The peer closed the connection: the session is over.
    Close,
    /// Any other connection-channel payload; no effect on the session.
    Other,
}

/// A media-channel message.
#[derive(Clone, Debug)]
pub enum MediaMessage {
    /// A status push with one entry per playback session.
    Status(Vec<MediaSnapshot>),
    /// Any other media-channel payload; no effect on the session.
    Other,
}

/// A receiver-channel message.
#[derive(Clone, Copy, Debug, PartialEq, Eq, Structural)]
pub enum ReceiverMessage {
    /// A full receiver status.
    Status(ReceiverSnapshot),
    /// Any other receiver-channel payload; no effect on the session.
    Other,
}

/// One inbound message of the device link, dispatched by channel tag.
/// The union is closed: a new channel tag must be a compile-time-visible
/// change.
#[derive(Clone, Debug)]
pub enum ChannelMessage {
    /// Message of the connection channel.
    Connection(ConnectionMessage),
    /// Message of the heartbeat channel.
    Heartbeat(HeartbeatMessage),
    /// Message of the media channel.
    Media(MediaMessage),
    /// Message of the receiver channel.
    Receiver(ReceiverMessage),
    /// A message no built-in channel could process; logged and ignored.
    Raw,
}

/// What the wait for the next device-link message produced.
#[derive(Clone, Debug)]
pub enum LinkEvent {
    /// A message arrived.
    Message(ChannelMessage),
    /// Receiving failed: the connection is to be dropped and the session
    /// ends.
    TransportError,
}

/// Why the session ended.
#[derive(Clone, Copy, Debug, PartialEq, Eq, Structural)]
pub enum SessionEnd {
    /// The peer closed the connection.
    ConnectionClosed,
    /// Playback went idle with nothing more to load: the queue ran out or
    /// the session was stopped.
    PlaybackEnded,
    /// A transport error occurred while receiving.
    TransportFailed,
}

/// A breach of the protocol contract; fatal, since guessing could
/// desynchronize the published state forever.
#[derive(Clone, Copy, Debug, PartialEq, Eq, Structural)]
pub enum ProtocolViolation {
    /// An idle reason was reported with a player state other than idle.
    IdleReasonWithoutIdle,
}

/// What the receive loop does after handling one event.
#[derive(Clone, Copy, Debug, PartialEq, Eq, Structural)]
pub enum LoopControl {
    /// Keep waiting for the next event.
    Continue,
    /// Answer the heartbeat with a pong, then keep waiting.
    ReplyPong,
    /// The session is over; the loop returns.
    Stop(SessionEnd),
    /// The protocol contract was breached; the session aborts.
    Fatal(ProtocolViolation),
}

/// Outcome of working through the entries of one media-status push.
#[derive(Clone, Copy, Debug, PartialEq, Eq, Structural)]
pub enum MediaStatusOutcome {
    /// Every entry was handled; the session goes on.
    Continue,
    /// Playback went idle with no extended status: the session is over.
    Ended,
    /// An entry breached the protocol contract.
    Violation,
}

/// What one media-status entry asks of the session.
pub enum EntryAction {
    /// The entry belongs to another session and is dropped.
    Skip,
    /// The entry is published through the merge rule.
    Publish,
    /// The entry is published through the merge rule and then ends the
    /// session: nothing more will play.
    End,
    /// The entry breaches the protocol contract; nothing is published.
    Violation,
}

/// How the session treats one media-status entry.
///
/// An entry of another session is dropped. Every other entry is published
/// through the merge rule — and then termination is evaluated: an idle
/// reason demands an idle player state (anything else breaches the
/// protocol contract, and such an entry is not published), and with one,
/// a missing extended status means nothing more will play, while a
/// loading extended status keeps the session alive.
pub open spec fn spec_entry_action(e: MediaSnapshot, session_id: i32) -> EntryAction {
    if e.media_session_id != session_id {
        EntryAction::Skip
    } else if e.idle_reason is Some {
        if e.player_state != PlayerState::Idle {
            EntryAction::Violation
        } else if e.extended_status is None {
            EntryAction::End
        } else {
            EntryAction::Publish
        }
    } else {
        EntryAction::Publish
    }
}

/// Folds the entries of one status push over the media snapshot, in order,
/// stopping after the first entry that ends the session — which is still
/// published — or at the first entry that breaches the contract, which is
/// not. Yields the resulting snapshot, whether anything was published,
/// and the outcome.
pub open spec fn spec_run_entries(
    media: MediaSnapshot,
    published: bool,
    entries: Seq<MediaSnapshot>,
    session_id: i32,
) -> (MediaSnapshot, bool, MediaStatusOutcome)
    decreases entries.len(),
{
    if entries.len() == 0 {
        (media, published, MediaStatusOutcome::Continue)
    } else {
        match spec_entry_action(entries[0], session_id) {
            EntryAction::Skip => spec_run_entries(media, published, entries.drop_first(), session_id),
            EntryAction::Publish => spec_run_entries(
                merged_media(media, entries[0]),
                true,
                entries.drop_first(),
                session_id,
            ),
            EntryAction::End => (
                merged_media(media, entries[0]),
                true,
                MediaStatusOutcome::Ended,
            ),
            EntryAction::Violation => (media, published, MediaStatusOutcome::Violation),
        }
    }
}

impl Player {
    /// Works through the entries of one media-status push.
    ///
    /// Entries of other sessions are dropped without a publish. Every
    /// other entry is published through the merge rule, and termination
    /// is then evaluated: an entry with an idle reason must carry an idle
    /// player state — anything else breaches the protocol contract and is
    /// not published — and ends the session, after its publish, if no
    /// extended status accompanies it.
    pub fn handle_media_status(&mut self, entries: Vec<MediaSnapshot>) -> (r: MediaStatusOutcome)
        ensures
            ({
                let folded = spec_run_entries(
                    old(self).store.media,
                    false,
                    entries@,
                    old(self).media_session_id,
                );
                &&& final(self).store.media == folded.0
                &&& final(self).store.media_changed == (old(self).store.media_changed || folded.1)
                &&& r == folded.2
            }),
            final(self).store.receiver == old(self).store.receiver,
            final(self).store.receiver_changed == old(self).store.receiver_changed,
            final(self).media_session_id == old(self).media_session_id,
            final(self).transport_id == old(self).transport_id,
    {
        let mut rest = entries;
        let ghost mut published: bool = false;
        while rest.len() > 0
            invariant
                spec_run_entries(
                    old(self).store.media,
                    false,
                    entries@,
                    old(self).media_session_id,
                ) == spec_run_entries(
                    self.store.media,
                    published,
                    rest@,
                    old(self).media_session_id,
                ),
                self.store.media_changed == (old(self).store.media_changed || published),
                self.store.receiver == old(self).store.receiver,
                self.store.receiver_changed == old(self).store.receiver_changed,
                self.media_session_id == old(self).media_session_id,
                self.transport_id == old(self).transport_id,
            decreases rest.len(),
        {
            let ghost rest_before = rest@;
            let entry = rest.remove(0);
            proof {
                assert(rest@ =~= rest_before.drop_first());
            }
            if entry.media_session_id == self.media_session_id {
                let mut session_over = false;
                if entry.idle_reason.is_some() {
                    if !(matches!(entry.player_state, PlayerState::Idle)) {
                        return MediaStatusOutcome::Violation;
                    }
                    match &entry.extended_status {
                        None => {
                            // Nothing more will play; the entry is still
                            // published before the session ends.
                            session_over = true;
                        },
                        Some(es) => {
                            // The extended state has a single inhabitant; a
                            // new receiver-side state must be handled here,
                            // not passed through.
                            match es.player_state {
                                ExtendedPlayerState::Loading => {},
                            }
                        },
                    }
                }
                self.store.publish_media(entry);
                proof {
                    published = true;
                }
                if session_over {
                    return MediaStatusOutcome::Ended;
                }
            }
        }
        MediaStatusOutcome::Continue
    }

    /// Handles one device-link event, publishing what it carries and
    /// deciding whether the session goes on.
    pub fn handle_message(&mut self, event: LinkEvent) -> (r: LoopControl)
        ensures
            final(self).media_session_id == old(self).media_session_id,
            final(self).transport_id == old(self).transport_id,
            match event {
                LinkEvent::Message(ChannelMessage::Heartbeat(hb)) => *final(self) == *old(self) && r
                    == (if hb == HeartbeatMessage::Ping {
                    LoopControl::ReplyPong
                } else {
                    LoopControl::Continue
                }),
                LinkEvent::Message(ChannelMessage::Connection(c)) => *final(self) == *old(self) && r
                    == (if c == ConnectionMessage::Close {
                    LoopControl::Stop(SessionEnd::ConnectionClosed)
                } else {
                    LoopControl::Continue
                }),
                LinkEvent::Message(ChannelMessage::Media(MediaMessage::Status(entries))) => ({
                    let folded = spec_run_entries(
                        old(self).store.media,
                        false,
                        entries@,
                        old(self).media_session_id,
                    );
                    &&& final(self).store.media == folded.0
                    &&& final(self).store.media_changed == (old(self).store.media_changed
                        || folded.1)
                    &&& final(self).store.receiver == old(self).store.receiver
                    &&& final(self).store.receiver_changed == old(self).store.receiver_changed
                    &&& r == match folded.2 {
                        MediaStatusOutcome::Continue => LoopControl::Continue,
                        MediaStatusOutcome::Ended => LoopControl::Stop(SessionEnd::PlaybackEnded),
                        MediaStatusOutcome::Violation => LoopControl::Fatal(
                            ProtocolViolation::IdleReasonWithoutIdle,
                        ),
                    }
                }),
                LinkEvent::Message(ChannelMessage::Media(MediaMessage::Other)) => *final(self)
                    == *old(self) && r == LoopControl::Continue,
                LinkEvent::Message(ChannelMessage::Receiver(ReceiverMessage::Status(rs))) => {
                    &&& final(self).store.receiver == rs
                    &&& final(self).store.receiver_changed
                    &&& final(self).store.media == old(self).store.media
                    &&& final(self).store.media_changed == old(self).store.media_changed
                    &&& r == LoopControl::Continue
                },
                LinkEvent::Message(ChannelMessage::Receiver(ReceiverMessage::Other)) => *final(self)
                    == *old(self) && r == LoopControl::Continue,
                LinkEvent::Message(ChannelMessage::Raw) => *final(self) == *old(self) && r
                    == LoopControl::Continue,
                LinkEvent::TransportError => *final(self) == *old(self) && r == LoopControl::Stop(
                    SessionEnd::TransportFailed,
                ),
            },
    {
        match event {
            LinkEvent::Message(ChannelMessage::Heartbeat(hb)) => {
                if matches!(hb, HeartbeatMessage::Ping) {
                    LoopControl::ReplyPong
                } else {
                    LoopControl::Continue
                }
            },
            LinkEvent::Message(ChannelMessage::Connection(c)) => {
                if matches!(c, ConnectionMessage::Close) {
                    LoopControl::Stop(SessionEnd::ConnectionClosed)
                } else {
                    LoopControl::Continue
                }
            },
            LinkEvent::Message(ChannelMessage::Media(MediaMessage::Status(entries))) => {
                match self.handle_media_status(entries) {
                    MediaStatusOutcome::Continue => LoopControl::Continue,
                    MediaStatusOutcome::Ended => LoopControl::Stop(SessionEnd::PlaybackEnded),
                    MediaStatusOutcome::Violation => LoopControl::Fatal(
                        ProtocolViolation::IdleReasonWithoutIdle,
                    ),
                }
            },
            LinkEvent::Message(ChannelMessage::Media(MediaMessage::Other)) => LoopControl::Continue,
            LinkEvent::Message(ChannelMessage::Receiver(ReceiverMessage::Status(rs))) => {
                self.set_receiver_status(rs);
                LoopControl::Continue
            },
            LinkEvent::Message(ChannelMessage::Receiver(ReceiverMessage::Other)) => LoopControl::Continue,
            LinkEvent::Message(ChannelMessage::Raw) => LoopControl::Continue,
            LinkEvent::TransportError => LoopControl::Stop(SessionEnd::TransportFailed),
        }
    }
}

/// Copies an optional text field.
fn clone_opt_string(a: &Option<String>) -> (r: Option<String>)
    ensures
        r == *a,
{
    match a {
        Some(s) => Some(s.clone()),
        None => None,
    }
}

/// Copies an optional single-valued tag into a one-element list.
fn clone_opt_single(a: &Option<String>) -> (r: Option<Vec<String>>)
    ensures
        crate::mpris::opt_list_view(r) == spec_opt_single(*a),
{
    match a {
        Some(s) => {
            let v = vec![s.clone()];
            proof {
                assert(v.deep_view() =~= seq![s@]);
            }
            Some(v)
        },
        None => None,
    }
}

/// Playback status projected from a media snapshot, for a session bound to
/// `session_id`.
pub open spec fn spec_playback_status(ms: MediaSnapshot, session_id: i32) -> PlaybackStatus {
    match ms.player_state {
        PlayerState::Idle => match ms.extended_status {
            Some(es) => if es.player_state == ExtendedPlayerState::Loading && es.media_session_id
                == Some(session_id) {
                PlaybackStatus::Playing
            } else {
                PlaybackStatus::Stopped
            },
            None => PlaybackStatus::Stopped,
        },
        PlayerState::Playing => PlaybackStatus::Playing,
        PlayerState::Buffering => PlaybackStatus::Playing,
        PlayerState::Paused => PlaybackStatus::Paused,
    }
}

/// Loop status projected from a media snapshot: `Off` and an unknown mode
/// map to `NoLoop`, `All` and `AllAndShuffle` to `Playlist`, `Single` to
/// `Track`.
pub open spec fn spec_loop_status(ms: MediaSnapshot) -> LoopStatus {
    match ms.repeat_mode {
        Some(RepeatMode::Off) => LoopStatus::NoLoop,
        None => LoopStatus::NoLoop,
        Some(RepeatMode::All) => LoopStatus::Playlist,
        Some(RepeatMode::Single) => LoopStatus::Track,
        Some(RepeatMode::AllAndShuffle) => LoopStatus::Playlist,
    }
}

/// Shuffle flag projected from a media snapshot.
pub open spec fn spec_shuffle_status(ms: MediaSnapshot) -> bool {
    match ms.queue_data {
        Some(queue_data) => queue_data.shuffle,
        None => false,
    }
}

/// Volume projected from a receiver snapshot.
pub open spec fn spec_volume(rs: ReceiverSnapshot) -> u32 {
    if rs.muted {
        0
    } else {
        rs.level
    }
}

/// Playback position projected from a media snapshot.
pub open spec fn spec_position(ms: MediaSnapshot) -> i64 {
    match ms.current_time_micros {
        Some(t) => t,
        None => 0,
    }
}

/// Whether a repeat mode is set and active, which alone makes both skip
/// directions available.
pub open spec fn spec_repeat_active(ms: MediaSnapshot) -> bool {
    match ms.repeat_mode {
        Some(m) => m != RepeatMode::Off,
        None => false,
    }
}

/// The last-published value of every externally visible property.
///
/// On each recomputation the current projections are compared against this
/// cache and a batched change notification carries exactly the properties
/// whose value differs; identical projections produce no notification.
pub struct PropertyCache {
    /// Last published playback status.
    pub playback_status: PlaybackStatus,
    /// Last published loop status.
    pub loop_status: LoopStatus,
    /// Last published track metadata.
    pub metadata: Metadata,
    /// Last published next-track availability.
    pub can_go_next: bool,
    /// Last published previous-track availability.
    pub can_go_previous: bool,
    /// Last published shuffle flag.
    pub shuffle: bool,
    /// Last published volume, in thousandths of full scale.
    pub volume: u32,
}

/// Mathematical value of a [`PropertyCache`].
pub struct PropertyCacheView {
    /// Last published playback status.
    pub playback_status: PlaybackStatus,
    /// Last published loop status.
    pub loop_status: LoopStatus,
    /// Last published track metadata.
    pub metadata: MetadataView,
    /// Last published next-track availability.
    pub can_go_next: bool,
    /// Last published previous-track availability.
    pub can_go_previous: bool,
    /// Last published shuffle flag.
    pub shuffle: bool,
    /// Last published volume, in thousandths of full scale.
    pub volume: u32,
}

impl View for PropertyCache {
    type V = PropertyCacheView;

    open spec fn view(&self) -> PropertyCacheView {
        PropertyCacheView {
            playback_status: self.playback_status,
            loop_status: self.loop_status,
            metadata: self.metadata@,
            can_go_next: self.can_go_next,
            can_go_previous: self.can_go_previous,
            shuffle: self.shuffle,
            volume: self.volume,
        }
    }
}

/// The values of a list of changed properties.
pub open spec fn prop_views(props: Seq<Property>) -> Seq<PropertyView> {
    props.map_values(|p: Property| p@)
}

/// The media-driven properties whose current projection differs from the
/// cache, in publication order: playback status, loop status, metadata,
/// next- and previous-track availability, shuffle.
pub open spec fn spec_media_props(
    cache: PropertyCacheView,
    ms: MediaSnapshot,
    session_id: i32,
) -> Seq<PropertyView>
    recommends
        spec_metadata(ms) is Ok,
{
    let ps = spec_playback_status(ms, session_id);
    let ls = spec_loop_status(ms);
    let mv = spec_metadata(ms)->Ok_0;
    let next = spec_can_go_next(ms);
    let prev = spec_can_go_previous(ms);
    let sh = spec_shuffle_status(ms);
    let s = Seq::<PropertyView>::empty();
    let s = if ps != cache.playback_status {
        s.push(PropertyView::PlaybackStatus(ps))
    } else {
        s
    };
    let s = if ls != cache.loop_status {
        s.push(PropertyView::LoopStatus(ls))
    } else {
        s
    };
    let s = if mv != cache.metadata {
        s.push(PropertyView::Metadata(mv))
    } else {
        s
    };
    let s = if next != cache.can_go_next {
        s.push(PropertyView::CanGoNext(next))
    } else {
        s
    };
    let s = if prev != cache.can_go_previous {
        s.push(PropertyView::CanGoPrevious(prev))
    } else {
        s
    };
    let s = if sh != cache.shuffle {
        s.push(PropertyView::Shuffle(sh))
    } else {
        s
    };
    s
}

/// The cache after a media-driven recomputation: every media projection
/// fresh, the volume untouched.
pub open spec fn spec_media_cache(
    cache: PropertyCacheView,
    ms: MediaSnapshot,
    session_id: i32,
) -> PropertyCacheView
    recommends
        spec_metadata(ms) is Ok,
{
    PropertyCacheView {
        playback_status: spec_playback_status(ms, session_id),
        loop_status: spec_loop_status(ms),
        metadata: spec_metadata(ms)->Ok_0,
        can_go_next: spec_can_go_next(ms),
        can_go_previous: spec_can_go_previous(ms),
        shuffle: spec_shuffle_status(ms),
        volume: cache.volume,
    }
}

impl PropertyCache {
    /// Primes the cache with the current projections, as published when
    /// the session starts.
    pub fn new(player: &Player) -> (r: Result<PropertyCache, MetadataError>)
        ensures
            match r {
                Ok(c) => spec_metadata(player.store.media) is Ok && c@ == (PropertyCacheView {
                    playback_status: spec_playback_status(
                        player.store.media,
                        player.media_session_id,
                    ),
                    loop_status: spec_loop_status(player.store.media),
                    metadata: spec_metadata(player.store.media)->Ok_0,
                    can_go_next: spec_can_go_next(player.store.media),
                    can_go_previous: spec_can_go_previous(player.store.media),
                    shuffle: spec_shuffle_status(player.store.media),
                    volume: spec_volume(player.store.receiver),
                }),
                Err(e) => spec_metadata(player.store.media) == Err::<MetadataView, MetadataError>(
                    e,
                ),
            },
    {
        let metadata = match player.metadata() {
            Ok(m) => m,
            Err(e) => {
                return Err(e);
            },
        };
        Ok(
            PropertyCache {
                playback_status: player.playback_status(),
                loop_status: player.loop_status(),
                metadata,
                can_go_next: player.can_go_next(),
                can_go_previous: player.can_go_previous(),
                shuffle: player.shuffle_status(),
                volume: player.volume(),
            },
        )
    }

    /// Recomputes the media-driven projections, updates the cache, and
    /// returns exactly the properties whose value changed, in publication
    /// order — an empty list when nothing changed. A metadata projection
    /// error leaves the cache untouched.
    pub fn media_changes(&mut self, player: &Player) -> (r: Result<Vec<Property>, MetadataError>)
        ensures
            match r {
                Ok(props) => {
                    &&& spec_metadata(player.store.media) is Ok
                    &&& final(self)@ == spec_media_cache(
                        old(self)@,
                        player.store.media,
                        player.media_session_id,
                    )
                    &&& prop_views(props@) == spec_media_props(
                        old(self)@,
                        player.store.media,
                        player.media_session_id,
                    )
                },
                Err(e) => {
                    &&& spec_metadata(player.store.media) == Err::<MetadataView, MetadataError>(e)
                    &&& *final(self) == *old(self)
                },
            },
    {
        let m = match player.metadata() {
            Ok(m) => m,
            Err(e) => {
                return Err(e);
            },
        };
        let ghost ps = spec_playback_status(player.store.media, player.media_session_id);
        let ghost ls = spec_loop_status(player.store.media);
        let ghost mv = spec_metadata(player.store.media)->Ok_0;
        let ghost next = spec_can_go_next(player.store.media);
        let ghost prev = spec_can_go_previous(player.store.media);
        let ghost sh = spec_shuffle_status(player.store.media);
        let ghost cache0 = self@;
        let ghost mut expect: Seq<PropertyView> = Seq::empty();
        let mut props: Vec<Property> = Vec::new();
        let p = player.playback_status();
        if p != self.playback_status {
            self.playback_status = p;
            props.push(Property::PlaybackStatus(p));
            proof {
                expect = expect.push(PropertyView::PlaybackStatus(ps));
            }
        }
        proof {
            assert(prop_views(props@) =~= expect);
        }
        let p = player.loop_status();
        if p != self.loop_status {
            self.loop_status = p;
            props.push(Property::LoopStatus(p));
            proof {
                expect = expect.push(PropertyView::LoopStatus(ls));
            }
        }
        proof {
            assert(prop_views(props@) =~= expect);
        }
        if !m.eq(&self.metadata) {
            props.push(Property::Metadata(m.duplicate()));
            self.metadata = m;
            proof {
                expect = expect.push(PropertyView::Metadata(mv));
            }
        }
        proof {
            assert(prop_views(props@) =~= expect);
        }
        let p = player.can_go_next();
        if p != self.can_go_next {
            self.can_go_next = p;
            props.push(Property::CanGoNext(p));
            proof {
                expect = expect.push(PropertyView::CanGoNext(next));
            }
        }
        proof {
            assert(prop_views(props@) =~= expect);
        }
        let p = player.can_go_previous();
        if p != self.can_go_previous {
            self.can_go_previous = p;
            props.push(Property::CanGoPrevious(p));
            proof {
                expect = expect.push(PropertyView::CanGoPrevious(prev));
            }
        }
        proof {
            assert(prop_views(props@) =~= expect);
        }
        let p = player.shuffle_status();
        if p != self.shuffle {
            self.shuffle = p;
            props.push(Property::Shuffle(p));
            proof {
                expect = expect.push(PropertyView::Shuffle(sh));
            }
        }
        proof {
            assert(prop_views(props@) =~= expect);
            assert(expect == spec_media_props(cache0, player.store.media, player.media_session_id));
        }
        Ok(props)
    }

    /// Recomputes the volume projection, updates the cache, and returns
    /// the new volume exactly when it changed. The media-driven entries of
    /// the cache are untouched: volume changes are signalled on their own.
    pub fn volume_change(&mut self, player: &Player) -> (r: Option<u32>)
        ensures
            final(self)@ == (PropertyCacheView {
                volume: spec_volume(player.store.receiver),
                ..old(self)@
            }),
            r == (if spec_volume(player.store.receiver) != old(self)@.volume {
                Some(spec_volume(player.store.receiver))
            } else {
                None::<u32>
            }),
    {
        let p = player.volume();
        if p != self.volume {
            self.volume = p;
            Some(p)
        } else {
            None
        }
    }
}

/// Diff-only notification: a cache that already holds every current
/// media projection yields an empty change list.
pub proof fn lemma_no_change_no_notification(
    cache: PropertyCacheView,
    ms: MediaSnapshot,
    session_id: i32,
)
    requires
        spec_metadata(ms) is Ok,
        cache == spec_media_cache(cache, ms, session_id),
    ensures
        spec_media_props(cache, ms, session_id) == Seq::<PropertyView>::empty(),
{
    assert(spec_media_props(cache, ms, session_id) =~= Seq::<PropertyView>::empty());
}

/// Session filtering: entries that all belong to other sessions fold to no
/// publish, no snapshot change and no session end.
pub proof fn lemma_session_filtering(
    media: MediaSnapshot,
    published: bool,
    entries: Seq<MediaSnapshot>,
    session_id: i32,
)
    requires
        forall|i: int| 0 <= i < entries.len() ==> entries[i].media_session_id != session_id,
    ensures
        spec_run_entries(media, published, entries, session_id) == (
            media,
            published,
            MediaStatusOutcome::Continue,
        ),
    decreases entries.len(),
{
    if entries.len() > 0 {
        assert(entries[0].media_session_id != session_id);
        lemma_session_filtering(media, published, entries.drop_first(), session_id);
    }
}

/// Termination: a matching idle entry with an idle reason is published
/// either way, and ends the session exactly when no extended status
/// accompanies it; with one, the session lives on.
pub proof fn lemma_idle_termination(e: MediaSnapshot, session_id: i32)
    requires
        e.media_session_id == session_id,
        e.player_state == PlayerState::Idle,
        e.idle_reason is Some,
    ensures
        e.extended_status is None ==> spec_entry_action(e, session_id) is End,
        e.extended_status is Some ==> spec_entry_action(e, session_id) is Publish,
{
}

/// With an active repeat mode, both skip directions are available
/// regardless of the queue position.
pub proof fn lemma_repeat_allows_skips(ms: MediaSnapshot)
    requires
        spec_repeat_active(ms),
    ensures
        spec_can_go_next(ms),
        spec_can_go_previous(ms),
{
}

/// A queue of one entry whose item is current cannot go previous.
pub proof fn lemma_single_item_no_previous(ms: MediaSnapshot, items: Vec<QueueItem>, current: i32)
    requires
        !spec_repeat_active(ms),
        ms.items == Some(items),
        ms.current_item_id == Some(current),
        items@.len() == 1,
        items@[0].item_id == Some(current),
    ensures
        !spec_can_go_previous(ms),
{
}

/// A queue of more than one entry whose first item id is known and not
/// current can go previous.
pub proof fn lemma_first_item_not_current_previous(
    ms: MediaSnapshot,
    items: Vec<QueueItem>,
    current: i32,
)
    requires
        !spec_repeat_active(ms),
        ms.items == Some(items),
        ms.current_item_id == Some(current),
        items@.len() > 1,
        items@[0].item_id is Some,
        items@[0].item_id != Some(current),
    ensures
        spec_can_go_previous(ms),
{
}

/// An unmuted receiver reports exactly its published level: a volume set
/// and then re-queried through a full status round-trips unchanged.
pub proof fn lemma_volume_round_trip(rs: ReceiverSnapshot)
    requires
        !rs.muted,
    ensures
        spec_volume(rs) == rs.level,
{
}

} // verus!
