//! Playlist records: an ordered sequence of member video identifiers.

use vstd::prelude::*;
use crate::list::ListItem;
use crate::snapshot::PlaylistSnapshot;

verus! {

/// A mirrored playlist. Unlike every other collection in this library,
/// `videos` is ordered: it is the playlist's own play order.
#[derive(Debug, Clone, PartialEq)]
pub struct PlaylistState {
    pub id: u32,
    pub title: String,
    pub videos: Vec<u32>,
}

impl ListItem for PlaylistState {
    open spec fn key_spec(&self) -> u32 {
        self.id
    }

    fn id(&self) -> u32 {
        self.id
    }
}

/// The record `PlaylistState::update` produces: the title is overwritten,
/// membership and identifier are untouched.
pub open spec fn playlist_update_spec(r: PlaylistState, s: PlaylistSnapshot) -> PlaylistState {
    PlaylistState { id: r.id, title: s.title, videos: r.videos }
}

/// Idempotence of the refresh protocol: a second `update` against the same
/// remote snapshot leaves every field identical.
pub proof fn lemma_playlist_update_idempotent(r: PlaylistState, s: PlaylistSnapshot)
    ensures
        playlist_update_spec(playlist_update_spec(r, s), s) == playlist_update_spec(r, s),
{
}

impl PlaylistState {
    /// Construct the record for a playlist observed for the first time.
    /// Membership starts empty; the driver fills it in.
    pub fn from(s: &PlaylistSnapshot) -> (r: PlaylistState)
        ensures
            r.id == s.id,
            r.title == s.title,
            r.videos@ == Seq::<u32>::empty(),
    {
        PlaylistState { id: s.id, title: s.title.clone(), videos: Vec::new() }
    }

    /// Refresh the record from a freshly fetched snapshot: the title is
    /// overwritten, membership and identifier are untouched.
    pub fn update(&mut self, s: &PlaylistSnapshot)
        ensures
            *final(self) == playlist_update_spec(*old(self), *s),
    {
        self.title = s.title.clone();
    }
}

} // verus!
