//! Plain-value snapshots of freshly fetched remote metadata.
//!
//! The remote client hands the driver opaque metadata objects; the driver
//! converts the fields this library consumes into these snapshot types before
//! calling `from` or `update` on a record. A field the remote system may omit
//! is an `Option`; the record operations decide which omissions are errors.
//! Timestamps are integer seconds since the epoch; dates are calendar-date
//! strings.

use vstd::prelude::*;

verus! {

/// Remote metadata for a collection.
#[derive(Debug, Clone, PartialEq)]
pub struct CollectionSnapshot {
    pub id: u32,
    pub library: Option<u32>,
    pub title: String,
    pub updated_at: Option<i64>,
}

/// Remote metadata for a playlist.
#[derive(Debug, Clone, PartialEq)]
pub struct PlaylistSnapshot {
    pub id: u32,
    pub title: String,
}

/// Remote metadata for a season.
#[derive(Debug, Clone, PartialEq)]
pub struct SeasonSnapshot {
    pub id: u32,
    pub show: Option<u32>,
    pub index: Option<u32>,
    pub title: String,
}

/// Remote metadata for a show.
#[derive(Debug, Clone, PartialEq)]
pub struct ShowSnapshot {
    pub id: u32,
    pub library: Option<u32>,
    pub year: Option<u32>,
    pub title: String,
    pub updated_at: Option<i64>,
}

/// The remote item type reported for a video, as far as this library
/// distinguishes it. Anything other than a movie or an episode is
/// unsupported.
#[derive(Debug, Clone, Copy, PartialEq, Eq, Structural)]
pub enum VideoKind {
    Movie,
    Episode,
    Unrecognized,
}

/// Remote metadata for one part of a video's media.
#[derive(Debug, Clone, PartialEq)]
pub struct PartSnapshot {
    pub duration: Option<u64>,
}

/// Remote metadata for one media rendition of a video.
#[derive(Debug, Clone, PartialEq)]
pub struct MediaSnapshot {
    pub id: u64,
    pub parts: Vec<PartSnapshot>,
}

/// Remote metadata for a video (movie or episode).
#[derive(Debug, Clone, PartialEq)]
pub struct VideoSnapshot {
    pub id: u32,
    pub title: String,
    pub kind: VideoKind,
    /// Owning library, reported for movies.
    pub library: Option<u32>,
    /// Release year, reported for movies.
    pub year: Option<u32>,
    /// Owning season, reported for episodes.
    pub season: Option<u32>,
    /// Index within the season, reported for episodes.
    pub index: Option<u32>,
    pub air_date: Option<String>,
    pub updated_at: Option<i64>,
    /// Media renditions; the first carries the parts this library mirrors.
    pub media: Vec<MediaSnapshot>,
}

} // verus!
