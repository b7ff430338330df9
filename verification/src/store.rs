//! Snapshot store: the two independently-versioned snapshots of the session,
//! each atomically replaced by a publish and read as a consistent whole.
//!
//! `publish_media` applies the partial-update merge rule: an update that
//! carries `items`, `media` and `queue_data` replaces the snapshot wholesale;
//! an update lacking any of those three fields is patched with the previously
//! known value for that field alone. No other field is ever carried forward.
//! Each snapshot has its own change signal, so a volume-only update can never
//! be lost behind a media wakeup.

use vstd::prelude::*;

use crate::status::{MediaSnapshot, ReceiverSnapshot};

verus! {

/// The media snapshot that results from publishing `update` over `prev`:
/// `items`, `media` and `queue_data` are carried forward from `prev` when
/// absent from `update`; every other field comes from `update`.
pub open spec fn merged_media(prev: MediaSnapshot, update: MediaSnapshot) -> MediaSnapshot {
    MediaSnapshot {
        media_session_id: update.media_session_id,
        player_state: update.player_state,
        idle_reason: update.idle_reason,
        extended_status: update.extended_status,
        items: if update.items is Some {
            update.items
        } else {
            prev.items
        },
        current_item_id: update.current_item_id,
        media: if update.media is Some {
            update.media
        } else {
            prev.media
        },
        queue_data: if update.queue_data is Some {
            update.queue_data
        } else {
            prev.queue_data
        },
        repeat_mode: update.repeat_mode,
        current_time_micros: update.current_time_micros,
    }
}

/// Both snapshots of one session, with one single-slot change signal each.
///
/// A publish replaces the visible snapshot as a whole and raises the
/// snapshot's own signal; a consumer takes the signal and re-reads the
/// current snapshot, so a missed intermediate value is harmless.
pub struct SnapshotStore {
    /// Media status of the tracked session.
    pub media: MediaSnapshot,
    /// Change signal of the media snapshot: raised on publish, consumed by
    /// the projection loop.
    pub media_changed: bool,
    /// Receiver-level status (volume and mute).
    pub receiver: ReceiverSnapshot,
    /// Change signal of the receiver snapshot, separate from the media one.
    pub receiver_changed: bool,
}

impl SnapshotStore {
    /// Creates the store from the initial status responses, with both change
    /// signals clear.
    pub fn new(media: MediaSnapshot, receiver: ReceiverSnapshot) -> (r: SnapshotStore)
        ensures
            r.media == media,
            r.receiver == receiver,
            !r.media_changed,
            !r.receiver_changed,
    {
        SnapshotStore { media, media_changed: false, receiver, receiver_changed: false }
    }

    /// Current media snapshot, always a complete, consistent view.
    pub fn current_media(&self) -> (r: &MediaSnapshot)
        ensures
            *r == self.media,
    {
        &self.media
    }

    /// Current receiver snapshot.
    pub fn current_receiver(&self) -> (r: &ReceiverSnapshot)
        ensures
            *r == self.receiver,
    {
        &self.receiver
    }

    /// Publishes a media-status update through the merge rule and raises the
    /// media change signal. The receiver snapshot and its signal are
    /// untouched.
    pub fn publish_media(&mut self, update: MediaSnapshot)
        ensures
            final(self).media == merged_media(old(self).media, update),
            final(self).media_changed,
            final(self).receiver == old(self).receiver,
            final(self).receiver_changed == old(self).receiver_changed,
    {
        let mut merged = update;
        if merged.items.is_none() {
            merged.items = self.media.items.take();
        }
        if merged.media.is_none() {
            merged.media = self.media.media.take();
        }
        if merged.queue_data.is_none() {
            merged.queue_data = self.media.queue_data.take();
        }
        self.media = merged;
        self.media_changed = true;
    }

    /// Publishes a full receiver status and raises the receiver change
    /// signal. The media snapshot and its signal are untouched.
    pub fn publish_receiver(&mut self, update: ReceiverSnapshot)
        ensures
            final(self).receiver == update,
            final(self).receiver_changed,
            final(self).media == old(self).media,
            final(self).media_changed == old(self).media_changed,
    {
        self.receiver = update;
        self.receiver_changed = true;
    }

    /// Consumes the media change signal, returning whether it was raised.
    pub fn take_media_changed(&mut self) -> (r: bool)
        ensures
            r == old(self).media_changed,
            !final(self).media_changed,
            final(self).media == old(self).media,
            final(self).receiver == old(self).receiver,
            final(self).receiver_changed == old(self).receiver_changed,
    {
        let r = self.media_changed;
        self.media_changed = false;
        r
    }

    /// Consumes the receiver change signal, returning whether it was raised.
    pub fn take_receiver_changed(&mut self) -> (r: bool)
        ensures
            r == old(self).receiver_changed,
            !final(self).receiver_changed,
            final(self).media == old(self).media,
            final(self).media_changed == old(self).media_changed,
            final(self).receiver == old(self).receiver,
    {
        let r = self.receiver_changed;
        self.receiver_changed = false;
        r
    }
}

/// Merge idempotence: publishing the same update twice yields the same
/// snapshot as publishing it once, whether or not the update is partial.
pub proof fn lemma_merge_idempotent(prev: MediaSnapshot, update: MediaSnapshot)
    ensures
        merged_media(merged_media(prev, update), update) == merged_media(prev, update),
{
}

/// Partial-update carry-forward: an update lacking `items`, `media` and
/// `queue_data` keeps all three from the prior snapshot while every other
/// field is taken fresh from the update.
pub proof fn lemma_partial_update_carry_forward(prev: MediaSnapshot, update: MediaSnapshot)
    requires
        update.items is None,
        update.media is None,
        update.queue_data is None,
    ensures
        merged_media(prev, update).items == prev.items,
        merged_media(prev, update).media == prev.media,
        merged_media(prev, update).queue_data == prev.queue_data,
        merged_media(prev, update).media_session_id == update.media_session_id,
        merged_media(prev, update).player_state == update.player_state,
        merged_media(prev, update).idle_reason == update.idle_reason,
        merged_media(prev, update).extended_status == update.extended_status,
        merged_media(prev, update).current_item_id == update.current_item_id,
        merged_media(prev, update).repeat_mode == update.repeat_mode,
        merged_media(prev, update).current_time_micros == update.current_time_micros,
{
}

/// A full update replaces the snapshot wholesale: with `items`, `media`
/// and `queue_data` all present, nothing of the prior snapshot survives.
pub proof fn lemma_full_update_replaces(prev: MediaSnapshot, update: MediaSnapshot)
    requires
        update.items is Some,
        update.media is Some,
        update.queue_data is Some,
    ensures
        merged_media(prev, update) == update,
{
}

/// Once observed, never absent again: if the prior snapshot holds `items`,
/// `media` or `queue_data`, the merged snapshot holds that field too.
pub proof fn lemma_fields_never_regress(prev: MediaSnapshot, update: MediaSnapshot)
    ensures
        prev.items is Some ==> merged_media(prev, update).items is Some,
        prev.media is Some ==> merged_media(prev, update).media is Some,
        prev.queue_data is Some ==> merged_media(prev, update).queue_data is Some,
{
}

} // verus!
