//! Video records: the per-video metadata, the movie/episode detail union,
//! and the per-part download states with their verify / invalidate / retire
//! protocol. This is the heart of the reconciliation model.

use vstd::prelude::*;
use crate::artifact::{
    CleanupAction, DownloadState, FileStatus, ThumbnailState, download_delete_spec,
    download_verify_spec, thumbnail_verify_spec,
};
use crate::error::Error;
use crate::list::ListItem;
use crate::snapshot::{VideoKind, VideoSnapshot};

verus! {

/// Detail a movie carries: its owning library and release year.
#[derive(Debug, Clone, PartialEq)]
pub struct MovieState {
    pub library: u32,
    pub year: u32,
}

/// Detail an episode carries: its owning season and index within it.
#[derive(Debug, Clone, PartialEq)]
pub struct EpisodeState {
    pub season: u32,
    pub index: u32,
}

/// The tagged union of per-kind video detail.
#[derive(Debug, Clone, PartialEq)]
pub enum VideoDetail {
    Movie(MovieState),
    Episode(EpisodeState),
}

/// One part of a video's media: its duration in milliseconds and the state
/// of its locally cached artifact. Part order is playback order and is
/// always preserved.
#[derive(Debug, Clone, PartialEq)]
pub struct VideoPart {
    pub duration: u64,
    pub download: DownloadState,
}

impl MovieState {
    /// Construct movie detail from a remote snapshot. Fails exactly when
    /// the owning library or the year is absent, in that order.
    pub fn from(s: &VideoSnapshot) -> (r: Result<MovieState, Error>)
        ensures
            r is Ok <==> s.library is Some && s.year is Some,
            r matches Ok(m) ==> m == (MovieState { library: s.library->0, year: s.year->0 }),
            r matches Err(e) ==> (e matches Error::ItemIncomplete(id, field) && id == s.id && (
            if s.library is None {
                field@ == "library"@
            } else {
                field@ == "year"@
            })),
    {
        let library = match s.library {
            Some(v) => v,
            None => {
                return Err(Error::ItemIncomplete(s.id, String::from_str("library")));
            },
        };
        let year = match s.year {
            Some(v) => v,
            None => {
                return Err(Error::ItemIncomplete(s.id, String::from_str("year")));
            },
        };
        Ok(MovieState { library, year })
    }

    /// Refresh movie detail: the owning library reference and the year are
    /// overwritten. Fails, changing nothing, exactly when either is absent,
    /// checked in the order `library`, `year`.
    pub fn update(&mut self, s: &VideoSnapshot) -> (r: Result<(), Error>)
        ensures
            r is Ok <==> s.library is Some && s.year is Some,
            r is Ok ==> *final(self) == (MovieState { library: s.library->0, year: s.year->0 }),
            r matches Err(e) ==> *final(self) == *old(self) && (e matches Error::ItemIncomplete(
                id,
                field,
            ) && id == s.id && (if s.library is None {
                field@ == "library"@
            } else {
                field@ == "year"@
            })),
    {
        let library = match s.library {
            Some(v) => v,
            None => {
                return Err(Error::ItemIncomplete(s.id, String::from_str("library")));
            },
        };
        let year = match s.year {
            Some(v) => v,
            None => {
                return Err(Error::ItemIncomplete(s.id, String::from_str("year")));
            },
        };
        self.library = library;
        self.year = year;
        Ok(())
    }
}

impl EpisodeState {
    /// Construct episode detail from a remote snapshot. Fails exactly when
    /// the owning season or the index is absent, in that order.
    pub fn from(s: &VideoSnapshot) -> (r: Result<EpisodeState, Error>)
        ensures
            r is Ok <==> s.season is Some && s.index is Some,
            r matches Ok(ep) ==> ep == (EpisodeState { season: s.season->0, index: s.index->0 }),
            r matches Err(e) ==> (e matches Error::ItemIncomplete(id, field) && id == s.id && (
            if s.season is None {
                field@ == "season"@
            } else {
                field@ == "index"@
            })),
    {
        let season = match s.season {
            Some(v) => v,
            None => {
                return Err(Error::ItemIncomplete(s.id, String::from_str("season")));
            },
        };
        let index = match s.index {
            Some(v) => v,
            None => {
                return Err(Error::ItemIncomplete(s.id, String::from_str("index")));
            },
        };
        Ok(EpisodeState { season, index })
    }

    /// Refresh episode detail: season reference and index are overwritten.
    /// Fails, changing nothing, exactly when either is absent, checked in
    /// the order `season`, `index`.
    pub fn update(&mut self, s: &VideoSnapshot) -> (r: Result<(), Error>)
        ensures
            r is Ok <==> s.season is Some && s.index is Some,
            r is Ok ==> *final(self) == (EpisodeState { season: s.season->0, index: s.index->0 }),
            r matches Err(e) ==> *final(self) == *old(self) && (e matches Error::ItemIncomplete(
                id,
                field,
            ) && id == s.id && (if s.season is None {
                field@ == "season"@
            } else {
                field@ == "index"@
            })),
    {
        let season = match s.season {
            Some(v) => v,
            None => {
                return Err(Error::ItemIncomplete(s.id, String::from_str("season")));
            },
        };
        let index = match s.index {
            Some(v) => v,
            None => {
                return Err(Error::ItemIncomplete(s.id, String::from_str("index")));
            },
        };
        self.season = season;
        self.index = index;
        Ok(())
    }
}

/// A mirrored video: identifier, title, per-kind detail, air date (a
/// calendar-date string), cached thumbnail, the remote media identifier,
/// the timestamp of the last remote change this record has absorbed, and
/// the parts in playback order.
#[derive(Debug, Clone, PartialEq)]
pub struct VideoState {
    pub id: u32,
    pub title: String,
    pub detail: VideoDetail,
    pub air_date: String,
    pub thumbnail: ThumbnailState,
    pub media_id: u64,
    pub last_updated: i64,
    pub parts: Vec<VideoPart>,
}

impl ListItem for VideoState {
    open spec fn key_spec(&self) -> u32 {
        self.id
    }

    fn id(&self) -> u32 {
        self.id
    }
}

/// The parts a freshly constructed video record mirrors: one per remote
/// part, in playback order, each with its duration and no artifact yet.
pub open spec fn new_parts_spec(ps: Seq<crate::snapshot::PartSnapshot>) -> Seq<VideoPart> {
    ps.map_values(
        |p: crate::snapshot::PartSnapshot| VideoPart {
            duration: p.duration->0,
            download: DownloadState::Absent,
        },
    )
}

/// The remote snapshot carries every field `VideoState::from` requires.
pub open spec fn video_snapshot_complete(s: VideoSnapshot) -> bool {
    &&& !(s.kind is Unrecognized)
    &&& (s.kind is Movie ==> s.library is Some && s.year is Some)
    &&& (s.kind is Episode ==> s.season is Some && s.index is Some)
    &&& s.media.len() > 0
    &&& (forall|i: int| 0 <= i < s.media[0].parts.len() ==> s.media[0].parts[i].duration is Some)
    &&& s.air_date is Some
    &&& s.updated_at is Some
}

/// The first required field `VideoState::from` finds absent, in the order it
/// checks them.
pub open spec fn video_from_missing_field(s: VideoSnapshot) -> Seq<char> {
    if s.kind is Movie && s.library is None {
        "library"@
    } else if s.kind is Movie && s.year is None {
        "year"@
    } else if s.kind is Episode && s.season is None {
        "season"@
    } else if s.kind is Episode && s.index is None {
        "index"@
    } else if s.media.len() == 0 {
        "media"@
    } else if exists|i: int| 0 <= i < s.media[0].parts.len() && s.media[0].parts[i].duration is None {
        "duration"@
    } else if s.air_date is None {
        "airDate"@
    } else {
        "updatedAt"@
    }
}

/// The failure `VideoState::from` reports: an unrecognized remote type, or
/// the first required field found absent.
pub open spec fn video_from_error(s: VideoSnapshot, e: Error) -> bool {
    if s.kind is Unrecognized {
        e == Error::ItemNotSupported(s.id)
    } else {
        match e {
            Error::ItemIncomplete(id, field) => id == s.id && field@ == video_from_missing_field(s),
            _ => false,
        }
    }
}

impl VideoState {
    /// The movie detail. Callers must already know this video is a movie.
    pub fn movie_state(&self) -> (m: &MovieState)
        requires
            self.detail is Movie,
        ensures
            self.detail == VideoDetail::Movie(*m),
    {
        match self.detail {
            VideoDetail::Movie(ref m) => m,
            VideoDetail::Episode(_) => unreached(),
        }
    }

    /// The episode detail. Callers must already know this video is an
    /// episode.
    pub fn episode_state(&self) -> (ep: &EpisodeState)
        requires
            self.detail is Episode,
        ensures
            self.detail == VideoDetail::Episode(*ep),
    {
        match self.detail {
            VideoDetail::Movie(_) => unreached(),
            VideoDetail::Episode(ref ep) => ep,
        }
    }

    /// Construct the record for a video observed for the first time: detail
    /// per the reported kind, parts mirrored from the first media rendition
    /// in playback order, thumbnail and every part artifact uncached. Fails,
    /// constructing nothing, exactly when the reported type is unrecognized
    /// or a required field is absent.
    pub fn from(s: &VideoSnapshot) -> (r: Result<VideoState, Error>)
        ensures
            r is Ok <==> video_snapshot_complete(*s),
            r matches Ok(rec) ==> {
                &&& rec.id == s.id
                &&& rec.title == s.title
                &&& rec.detail == (if s.kind is Movie {
                    VideoDetail::Movie(MovieState { library: s.library->0, year: s.year->0 })
                } else {
                    VideoDetail::Episode(EpisodeState { season: s.season->0, index: s.index->0 })
                })
                &&& rec.air_date == s.air_date->0
                &&& rec.thumbnail is Absent
                &&& rec.media_id == s.media[0].id
                &&& rec.last_updated == s.updated_at->0
                &&& rec.parts@ == new_parts_spec(s.media[0].parts@)
            },
            r matches Err(e) ==> video_from_error(*s, e),
    {
        let detail = match s.kind {
            VideoKind::Movie => {
                match MovieState::from(s) {
                    Ok(m) => VideoDetail::Movie(m),
                    Err(e) => {
                        return Err(e);
                    },
                }
            },
            VideoKind::Episode => {
                match EpisodeState::from(s) {
                    Ok(ep) => VideoDetail::Episode(ep),
                    Err(e) => {
                        return Err(e);
                    },
                }
            },
            VideoKind::Unrecognized => {
                return Err(Error::ItemNotSupported(s.id));
            },
        };
        if s.media.len() == 0 {
            return Err(Error::ItemIncomplete(s.id, String::from_str("media")));
        }
        let media = &s.media[0];
        let mut parts: Vec<VideoPart> = Vec::new();
        let mut i: usize = 0;
        while i < media.parts.len()
            invariant
                !(s.kind is Unrecognized),
                s.kind is Movie ==> s.library is Some && s.year is Some,
                s.kind is Episode ==> s.season is Some && s.index is Some,
                s.media.len() > 0,
                *media == s.media[0],
                0 <= i <= media.parts.len(),
                forall|j: int| 0 <= j < i ==> media.parts[j].duration is Some,
                parts@ == new_parts_spec(media.parts@.take(i as int)),
            decreases media.parts.len() - i,
        {
            let duration = match media.parts[i].duration {
                Some(d) => d,
                None => {
                    proof {
                        assert(s.media[0].parts[i as int].duration is None);
                    }
                    return Err(Error::ItemIncomplete(s.id, String::from_str("duration")));
                },
            };
            parts.push(VideoPart { duration, download: DownloadState::Absent });
            proof {
                assert(media.parts@.take(i + 1).drop_last() =~= media.parts@.take(i as int));
                assert(parts@ =~= new_parts_spec(media.parts@.take(i + 1)));
            }
            i += 1;
        }
        let air_date = match &s.air_date {
            Some(d) => d.clone(),
            None => {
                return Err(Error::ItemIncomplete(s.id, String::from_str("airDate")));
            },
        };
        let last_updated = match s.updated_at {
            Some(v) => v,
            None => {
                return Err(Error::ItemIncomplete(s.id, String::from_str("updatedAt")));
            },
        };
        proof {
            assert(media.parts@.take(media.parts@.len() as int) =~= media.parts@);
        }
        Ok(
            VideoState {
                id: s.id,
                title: s.title.clone(),
                detail,
                air_date,
                thumbnail: ThumbnailState::Absent,
                media_id: media.id,
                last_updated,
                parts,
            },
        )
    }
}

/// The removal action a retired path gives rise to, if any.
pub open spec fn opt_remove(path: Option<String>) -> Seq<CleanupAction> {
    match path {
        Some(p) => seq![CleanupAction::RemoveFile(p)],
        None => Seq::empty(),
    }
}

/// The cancel action a released session gives rise to, if any.
pub open spec fn opt_cancel(session: Option<String>) -> Seq<CleanupAction> {
    match session {
        Some(sid) => seq![CleanupAction::CancelSession(sid)],
        None => Seq::empty(),
    }
}

/// The parts after each artifact has reconciled itself with the stat
/// observed at its recorded path. Durations and order are untouched.
pub open spec fn verify_parts_spec(parts: Seq<VideoPart>, ps: Seq<FileStatus>) -> Seq<VideoPart> {
    Seq::new(
        parts.len(),
        |i: int| VideoPart {
            duration: parts[i].duration,
            download: download_verify_spec(parts[i].download, ps[i]).0,
        },
    )
}

/// The session cancels that reconciling the parts asks for, in part order.
pub open spec fn verify_parts_cancels(parts: Seq<VideoPart>, ps: Seq<FileStatus>) -> Seq<
    CleanupAction,
>
    decreases parts.len(),
{
    if parts.len() == 0 {
        Seq::empty()
    } else {
        verify_parts_cancels(parts.drop_last(), ps.drop_last()) + opt_cancel(
            download_verify_spec(parts.last().download, ps.last()).1,
        )
    }
}

/// The parts after every artifact has been retired: durations and order
/// untouched, every download state `Absent`.
pub open spec fn retire_parts_spec(parts: Seq<VideoPart>) -> Seq<VideoPart> {
    Seq::new(
        parts.len(),
        |i: int| VideoPart { duration: parts[i].duration, download: DownloadState::Absent },
    )
}

/// The cleanup that retiring one part's artifact asks for: remove its file,
/// then cancel its session, each when present.
pub open spec fn part_retire_actions(d: DownloadState) -> Seq<CleanupAction> {
    opt_remove(download_delete_spec(d).1) + opt_cancel(download_delete_spec(d).2)
}

/// The cleanup that retiring every part asks for, in part order.
pub open spec fn retire_parts_actions(parts: Seq<VideoPart>) -> Seq<CleanupAction>
    decreases parts.len(),
{
    if parts.len() == 0 {
        Seq::empty()
    } else {
        retire_parts_actions(parts.drop_last()) + part_retire_actions(parts.last().download)
    }
}

/// The cleanup that reconciling and then unconditionally retiring one part
/// asks for, in the order performed: the cancel the reconciliation asks for,
/// then the removal and cancel the retirement asks for.
pub open spec fn part_verify_retire_actions(d: DownloadState, st: FileStatus) -> Seq<
    CleanupAction,
> {
    let verified = download_verify_spec(d, st);
    opt_cancel(verified.1) + part_retire_actions(verified.0)
}

/// The cleanup that reconciling and retiring every part asks for, in part
/// order.
pub open spec fn verify_retire_parts_actions(parts: Seq<VideoPart>, ps: Seq<FileStatus>) -> Seq<
    CleanupAction,
>
    decreases parts.len(),
{
    if parts.len() == 0 {
        Seq::empty()
    } else {
        verify_retire_parts_actions(parts.drop_last(), ps.drop_last())
            + part_verify_retire_actions(parts.last().download, ps.last())
    }
}

/// The remote snapshot carries every field `VideoState::update` requires of
/// this record: the fields of the record's own detail variant (the variant
/// is preserved across updates), and the timestamp.
pub open spec fn video_refresh_complete(v: VideoState, s: VideoSnapshot) -> bool {
    &&& !(s.kind is Unrecognized)
    &&& (v.detail is Movie ==> s.library is Some && s.year is Some)
    &&& (v.detail is Episode ==> s.season is Some && s.index is Some)
    &&& s.updated_at is Some
}

/// The detail after a refresh: the variant is preserved; a movie's owning
/// library and year, and an episode's season and index, are overwritten.
pub open spec fn video_refresh_detail(d: VideoDetail, s: VideoSnapshot) -> VideoDetail {
    match d {
        VideoDetail::Movie(_) => VideoDetail::Movie(
            MovieState { library: s.library->0, year: s.year->0 },
        ),
        VideoDetail::Episode(_) => VideoDetail::Episode(
            EpisodeState { season: s.season->0, index: s.index->0 },
        ),
    }
}

/// The remote item changed after this record last absorbed a change: its
/// surviving artifacts are stale.
pub open spec fn video_update_stale(v: VideoState, s: VideoSnapshot) -> bool {
    s.updated_at->0 > v.last_updated
}

/// The thumbnail after `VideoState::update`: self-healed, then discarded if
/// stale.
pub open spec fn video_update_thumbnail(v: VideoState, s: VideoSnapshot, ts: FileStatus) -> ThumbnailState {
    if video_update_stale(v, s) {
        ThumbnailState::Absent
    } else {
        thumbnail_verify_spec(v.thumbnail, ts)
    }
}

/// The parts after `VideoState::update`: each self-healed, then every
/// surviving artifact discarded if stale. Durations and order untouched.
pub open spec fn video_update_parts(v: VideoState, s: VideoSnapshot, ps: Seq<FileStatus>) -> Seq<VideoPart> {
    let parts1 = verify_parts_spec(v.parts@, ps);
    if video_update_stale(v, s) {
        retire_parts_spec(parts1)
    } else {
        parts1
    }
}

/// The timestamp after `VideoState::update`: adopted only when the remote
/// item is newer, so it advances and never decreases.
pub open spec fn video_update_timestamp(v: VideoState, s: VideoSnapshot) -> i64 {
    if video_update_stale(v, s) {
        s.updated_at->0
    } else {
        v.last_updated
    }
}

/// The cleanup `VideoState::update` asks its caller for, in the order it
/// should be performed: the cancels self-healing asked for, then — only if
/// stale — the removal of the surviving thumbnail and the retirement of
/// every surviving part artifact.
pub open spec fn video_update_actions(v: VideoState, s: VideoSnapshot, ts: FileStatus, ps: Seq<FileStatus>) -> Seq<CleanupAction> {
    verify_parts_cancels(v.parts@, ps) + (if video_update_stale(v, s) {
        opt_remove(thumbnail_verify_spec(v.thumbnail, ts).path_spec()) + retire_parts_actions(
            verify_parts_spec(v.parts@, ps),
        )
    } else {
        Seq::<CleanupAction>::empty()
    })
}

/// The failure `VideoState::update` reports: an unrecognized remote type, or
/// the first field the record's own variant requires found absent.
pub open spec fn video_refresh_error(v: VideoState, s: VideoSnapshot, e: Error) -> bool {
    if s.kind is Unrecognized {
        e == Error::ItemNotSupported(s.id)
    } else {
        match e {
            Error::ItemIncomplete(id, field) => {
                id == s.id && field@ == (if v.detail is Movie && s.library is None {
                    "library"@
                } else if v.detail is Movie && s.year is None {
                    "year"@
                } else if v.detail is Episode && s.season is None {
                    "season"@
                } else if v.detail is Episode && s.index is None {
                    "index"@
                } else {
                    "updatedAt"@
                })
            },
            _ => false,
        }
    }
}

impl VideoState {
    /// Refresh the record from a freshly fetched snapshot. `thumb_status` is
    /// what a stat of the thumbnail's recorded path observed, and
    /// `part_statuses[i]` what a stat of part `i`'s recorded path observed.
    /// Simple metadata is overwritten; every artifact self-heals; then, only
    /// if the remote item changed after this record last absorbed a change,
    /// every surviving artifact is discarded as stale and the timestamp
    /// adopted. The returned actions, in the order they should be performed,
    /// are the best-effort cleanup the caller owes. Fails, changing nothing,
    /// exactly when the reported type is unrecognized or a field the
    /// record's own variant requires is absent.
    pub fn update(&mut self, s: &VideoSnapshot, thumb_status: FileStatus, part_statuses: &Vec<
        FileStatus,
    >) -> (r: Result<Vec<CleanupAction>, Error>)
        requires
            part_statuses@.len() == old(self).parts@.len(),
        ensures
            r is Ok <==> video_refresh_complete(*old(self), *s),
            r matches Ok(actions) ==> {
                &&& final(self).id == old(self).id
                &&& final(self).title == s.title
                &&& final(self).detail == video_refresh_detail(old(self).detail, *s)
                &&& final(self).air_date == old(self).air_date
                &&& final(self).media_id == old(self).media_id
                &&& final(self).last_updated == video_update_timestamp(*old(self), *s)
                &&& final(self).thumbnail == video_update_thumbnail(*old(self), *s, thumb_status)
                &&& final(self).parts@ == video_update_parts(*old(self), *s, part_statuses@)
                &&& actions@ == video_update_actions(*old(self), *s, thumb_status, part_statuses@)
            },
            r matches Err(e) ==> *final(self) == *old(self) && video_refresh_error(
                *old(self),
                *s,
                e,
            ),
    {
        if matches!(s.kind, VideoKind::Unrecognized) {
            return Err(Error::ItemNotSupported(s.id));
        }
        let new_detail = match &self.detail {
            VideoDetail::Movie(_) => {
                let library = match s.library {
                    Some(v) => v,
                    None => {
                        return Err(Error::ItemIncomplete(s.id, String::from_str("library")));
                    },
                };
                let year = match s.year {
                    Some(v) => v,
                    None => {
                        return Err(Error::ItemIncomplete(s.id, String::from_str("year")));
                    },
                };
                VideoDetail::Movie(MovieState { library, year })
            },
            VideoDetail::Episode(_) => {
                let season = match s.season {
                    Some(v) => v,
                    None => {
                        return Err(Error::ItemIncomplete(s.id, String::from_str("season")));
                    },
                };
                let index = match s.index {
                    Some(v) => v,
                    None => {
                        return Err(Error::ItemIncomplete(s.id, String::from_str("index")));
                    },
                };
                VideoDetail::Episode(EpisodeState { season, index })
            },
        };
        let upd = match s.updated_at {
            Some(v) => v,
            None => {
                return Err(Error::ItemIncomplete(s.id, String::from_str("updatedAt")));
            },
        };
        self.title = s.title.clone();
        self.detail = new_detail;
        self.thumbnail.verify(thumb_status);
        let ghost parts0 = old(self).parts@;
        let ghost statuses = part_statuses@;
        let mut actions: Vec<CleanupAction> = Vec::new();
        let n = self.parts.len();
        let mut i: usize = 0;
        while i < n
            invariant
                n == parts0.len(),
                statuses.len() == parts0.len(),
                statuses == part_statuses@,
                0 <= i <= n,
                self.parts@.len() == parts0.len(),
                forall|j: int| 0 <= j < i ==> self.parts@[j] == verify_parts_spec(
                    parts0,
                    statuses,
                )[j],
                forall|j: int| i <= j < n ==> self.parts@[j] == parts0[j],
                actions@ == verify_parts_cancels(parts0.take(i as int), statuses.take(i as int)),
                self.id == old(self).id,
                self.title == s.title,
                self.detail == video_refresh_detail(old(self).detail, *s),
                self.air_date == old(self).air_date,
                self.media_id == old(self).media_id,
                self.last_updated == old(self).last_updated,
                self.thumbnail == thumbnail_verify_spec(old(self).thumbnail, thumb_status),
            decreases n - i,
        {
            let cancel = self.parts[i].download.verify(part_statuses[i]);
            match cancel {
                Some(sid) => actions.push(CleanupAction::CancelSession(sid)),
                None => (),
            }
            proof {
                assert(parts0.take(i + 1).drop_last() =~= parts0.take(i as int));
                assert(statuses.take(i + 1).drop_last() =~= statuses.take(i as int));
                assert(actions@ =~= verify_parts_cancels(
                    parts0.take(i + 1),
                    statuses.take(i + 1),
                ));
            }
            i += 1;
        }
        proof {
            assert(parts0.take(n as int) =~= parts0);
            assert(statuses.take(n as int) =~= statuses);
            assert(self.parts@ =~= verify_parts_spec(parts0, statuses));
        }
        if upd > self.last_updated {
            let ghost parts1 = verify_parts_spec(parts0, statuses);
            if !self.thumbnail.is_none() {
                match self.thumbnail.delete() {
                    Some(p) => actions.push(CleanupAction::RemoveFile(p)),
                    None => (),
                }
            }
            let ghost base = actions@;
            let mut k: usize = 0;
            while k < n
                invariant
                    n == parts1.len(),
                    0 <= k <= n,
                    self.parts@.len() == parts1.len(),
                    forall|j: int| 0 <= j < k ==> self.parts@[j] == retire_parts_spec(parts1)[j],
                    forall|j: int| k <= j < n ==> self.parts@[j] == parts1[j],
                    actions@ == base + retire_parts_actions(parts1.take(k as int)),
                    self.id == old(self).id,
                    self.title == s.title,
                    self.detail == video_refresh_detail(old(self).detail, *s),
                    self.air_date == old(self).air_date,
                    self.media_id == old(self).media_id,
                    self.last_updated == old(self).last_updated,
                    self.thumbnail is Absent,
                decreases n - k,
            {
                if !self.parts[k].download.is_none() {
                    let r = self.parts[k].download.delete();
                    match r.0 {
                        Some(p) => actions.push(CleanupAction::RemoveFile(p)),
                        None => (),
                    }
                    match r.1 {
                        Some(sid) => actions.push(CleanupAction::CancelSession(sid)),
                        None => (),
                    }
                }
                proof {
                    assert(parts1.take(k + 1).drop_last() =~= parts1.take(k as int));
                    assert(actions@ =~= base + retire_parts_actions(parts1.take(k + 1)));
                }
                k += 1;
            }
            proof {
                assert(parts1.take(n as int) =~= parts1);
                assert(self.parts@ =~= retire_parts_spec(parts1));
            }
            self.last_updated = upd;
        }
        Ok(actions)
    }

    /// Tear the record's artifacts down before the driver discards it:
    /// every artifact self-heals, then is retired unconditionally, whatever
    /// the staleness comparison would have said. The returned actions, in
    /// the order they should be performed, are the best-effort cleanup the
    /// caller owes; afterwards the thumbnail and every part artifact are
    /// `Absent` and every other field is untouched.
    pub fn delete(&mut self, thumb_status: FileStatus, part_statuses: &Vec<FileStatus>) -> (actions:
        Vec<CleanupAction>)
        requires
            part_statuses@.len() == old(self).parts@.len(),
        ensures
            final(self).thumbnail is Absent,
            final(self).parts@ == retire_parts_spec(old(self).parts@),
            final(self).id == old(self).id,
            final(self).title == old(self).title,
            final(self).detail == old(self).detail,
            final(self).air_date == old(self).air_date,
            final(self).media_id == old(self).media_id,
            final(self).last_updated == old(self).last_updated,
            actions@ == opt_remove(
                thumbnail_verify_spec(old(self).thumbnail, thumb_status).path_spec(),
            ) + verify_retire_parts_actions(old(self).parts@, part_statuses@),
    {
        let ghost parts0 = old(self).parts@;
        let ghost statuses = part_statuses@;
        let mut actions: Vec<CleanupAction> = Vec::new();
        self.thumbnail.verify(thumb_status);
        if !self.thumbnail.is_none() {
            match self.thumbnail.delete() {
                Some(p) => actions.push(CleanupAction::RemoveFile(p)),
                None => (),
            }
        }
        let ghost base = actions@;
        let n = self.parts.len();
        let mut k: usize = 0;
        while k < n
            invariant
                n == parts0.len(),
                statuses.len() == parts0.len(),
                statuses == part_statuses@,
                0 <= k <= n,
                self.parts@.len() == parts0.len(),
                forall|j: int| 0 <= j < k ==> self.parts@[j] == retire_parts_spec(parts0)[j],
                forall|j: int| k <= j < n ==> self.parts@[j] == parts0[j],
                actions@ == base + verify_retire_parts_actions(
                    parts0.take(k as int),
                    statuses.take(k as int),
                ),
                self.id == old(self).id,
                self.title == old(self).title,
                self.detail == old(self).detail,
                self.air_date == old(self).air_date,
                self.media_id == old(self).media_id,
                self.last_updated == old(self).last_updated,
                self.thumbnail is Absent,
            decreases n - k,
        {
            let cancel = self.parts[k].download.verify(part_statuses[k]);
            match cancel {
                Some(sid) => actions.push(CleanupAction::CancelSession(sid)),
                None => (),
            }
            if !self.parts[k].download.is_none() {
                let r = self.parts[k].download.delete();
                match r.0 {
                    Some(p) => actions.push(CleanupAction::RemoveFile(p)),
                    None => (),
                }
                match r.1 {
                    Some(sid) => actions.push(CleanupAction::CancelSession(sid)),
                    None => (),
                }
            }
            proof {
                assert(parts0.take(k + 1).drop_last() =~= parts0.take(k as int));
                assert(statuses.take(k + 1).drop_last() =~= statuses.take(k as int));
                assert(actions@ =~= base + verify_retire_parts_actions(
                    parts0.take(k + 1),
                    statuses.take(k + 1),
                ));
            }
            k += 1;
        }
        proof {
            assert(parts0.take(n as int) =~= parts0);
            assert(statuses.take(n as int) =~= statuses);
            assert(self.parts@ =~= retire_parts_spec(parts0));
        }
        actions
    }
}

/// Reconciling parts asks for no cancel when no recorded artifact is
/// observed vanished.
proof fn lemma_verify_parts_cancels_empty(parts: Seq<VideoPart>, ps: Seq<FileStatus>)
    requires
        ps.len() == parts.len(),
        forall|j: int|
            0 <= j < parts.len() ==> (!(parts[j].download is Absent) ==> !(ps[j] is NotFound)),
    ensures
        verify_parts_cancels(parts, ps) == Seq::<CleanupAction>::empty(),
    decreases parts.len(),
{
    if parts.len() == 0 {
    } else {
        lemma_verify_parts_cancels_empty(parts.drop_last(), ps.drop_last());
        assert(verify_parts_cancels(parts, ps) =~= Seq::<CleanupAction>::empty());
    }
}

/// Retiring the parts asks for the removal of every recorded file: if part
/// `j` records an artifact at some path, one of the retirement's actions is
/// the removal of exactly that file.
proof fn lemma_retire_parts_actions_contains(parts: Seq<VideoPart>, j: int)
    requires
        0 <= j < parts.len(),
        parts[j].download.path_spec() is Some,
    ensures
        retire_parts_actions(parts).contains(
            CleanupAction::RemoveFile(parts[j].download.path_spec()->0),
        ),
    decreases parts.len(),
{
    let target = CleanupAction::RemoveFile(parts[j].download.path_spec()->0);
    if j == parts.len() - 1 {
        assert(part_retire_actions(parts.last().download)[0] == target);
        assert(retire_parts_actions(parts)
            [retire_parts_actions(parts.drop_last()).len() as int] == target);
    } else {
        lemma_retire_parts_actions_contains(parts.drop_last(), j);
        let prefix = retire_parts_actions(parts.drop_last());
        let w = choose|w: int| 0 <= w < prefix.len() && prefix[w] == target;
        assert(retire_parts_actions(parts)[w] == target);
    }
}

/// Reconciling parts asks only for session cancels, never for a removal.
proof fn lemma_verify_parts_cancels_only_cancels(parts: Seq<VideoPart>, ps: Seq<FileStatus>)
    ensures
        forall|a: CleanupAction|
            verify_parts_cancels(parts, ps).contains(a) ==> a is CancelSession,
    decreases parts.len(),
{
    if parts.len() == 0 {
    } else {
        lemma_verify_parts_cancels_only_cancels(parts.drop_last(), ps.drop_last());
        assert forall|a: CleanupAction| verify_parts_cancels(parts, ps).contains(a) implies a is CancelSession by {
            let s1 = verify_parts_cancels(parts.drop_last(), ps.drop_last());
            let w = choose|w: int|
                0 <= w < verify_parts_cancels(parts, ps).len() && verify_parts_cancels(parts, ps)[w]
                    == a;
            if w < s1.len() {
                assert(s1.contains(a));
            }
        }
    }
}

/// Idempotence of the refresh protocol: a second `update` against the same
/// remote snapshot leaves every field of the record — artifact states
/// included — identical, and asks for no cleanup. `v1` is any record the
/// first update may produce; the disk is assumed unchanged in between, so no
/// artifact that survived the first pass is now observed vanished.
pub proof fn lemma_video_update_idempotent(
    v0: VideoState,
    v1: VideoState,
    s: VideoSnapshot,
    ts1: FileStatus,
    ps1: Seq<FileStatus>,
    ts2: FileStatus,
    ps2: Seq<FileStatus>,
)
    requires
        video_refresh_complete(v0, s),
        ps1.len() == v0.parts@.len(),
        ps2.len() == v1.parts@.len(),
        v1.title == s.title,
        v1.detail == video_refresh_detail(v0.detail, s),
        v1.last_updated == video_update_timestamp(v0, s),
        v1.thumbnail == video_update_thumbnail(v0, s, ts1),
        v1.parts@ == video_update_parts(v0, s, ps1),
        !(v1.thumbnail is Absent) ==> !(ts2 is NotFound),
        forall|j: int|
            0 <= j < v1.parts@.len() ==> (!(v1.parts@[j].download is Absent) ==> !(
            ps2[j] is NotFound)),
    ensures
        video_refresh_complete(v1, s),
        v1.title == s.title,
        video_refresh_detail(v1.detail, s) == v1.detail,
        video_update_timestamp(v1, s) == v1.last_updated,
        video_update_thumbnail(v1, s, ts2) == v1.thumbnail,
        video_update_parts(v1, s, ps2) == v1.parts@,
        video_update_actions(v1, s, ts2, ps2) == Seq::<CleanupAction>::empty(),
{
    assert(!video_update_stale(v1, s));
    assert(video_update_parts(v1, s, ps2) =~= v1.parts@);
    lemma_verify_parts_cancels_empty(v1.parts@, ps2);
    assert(video_update_actions(v1, s, ts2, ps2) =~= Seq::<CleanupAction>::empty());
}

/// Staleness invalidation: when the remote item is strictly newer than the
/// record, `update` resets every part artifact — in particular a
/// `Downloaded` one — to `Absent`, adopts the remote timestamp, and, if the
/// artifact's file was still observed on disk, asks for its removal.
pub proof fn lemma_video_update_invalidates_stale(
    v: VideoState,
    s: VideoSnapshot,
    ts: FileStatus,
    ps: Seq<FileStatus>,
    j: int,
    path: String,
)
    requires
        video_refresh_complete(v, s),
        ps.len() == v.parts@.len(),
        0 <= j < v.parts@.len(),
        v.parts@[j].download == (DownloadState::Downloaded { path }),
        s.updated_at->0 > v.last_updated,
    ensures
        video_update_parts(v, s, ps)[j].download is Absent,
        video_update_timestamp(v, s) == s.updated_at->0,
        !(ps[j] is NotFound) ==> video_update_actions(v, s, ts, ps).contains(
            CleanupAction::RemoveFile(path),
        ),
{
    let parts1 = verify_parts_spec(v.parts@, ps);
    if !(ps[j] is NotFound) {
        assert(parts1[j].download == (DownloadState::Downloaded { path }));
        lemma_retire_parts_actions_contains(parts1, j);
        let tail = opt_remove(thumbnail_verify_spec(v.thumbnail, ts).path_spec())
            + retire_parts_actions(parts1);
        let target = CleanupAction::RemoveFile(path);
        let w = choose|w: int|
            0 <= w < retire_parts_actions(parts1).len() && retire_parts_actions(parts1)[w]
                == target;
        assert(video_update_actions(v, s, ts, ps)[verify_parts_cancels(v.parts@, ps).len()
            + opt_remove(thumbnail_verify_spec(v.thumbnail, ts).path_spec()).len() + w] == target);
    }
}

/// No invalidation on an equal (or older) timestamp: when the remote item is
/// not newer than the record, `update` leaves a part whose file is still
/// observed on disk untouched, keeps the timestamp, and asks for no removal
/// of any file.
pub proof fn lemma_video_update_keeps_fresh(
    v: VideoState,
    s: VideoSnapshot,
    ts: FileStatus,
    ps: Seq<FileStatus>,
    j: int,
)
    requires
        video_refresh_complete(v, s),
        ps.len() == v.parts@.len(),
        0 <= j < v.parts@.len(),
        !(ps[j] is NotFound),
        s.updated_at->0 <= v.last_updated,
    ensures
        video_update_parts(v, s, ps)[j] == v.parts@[j],
        video_update_timestamp(v, s) == v.last_updated,
        forall|a: CleanupAction| video_update_actions(v, s, ts, ps).contains(a) ==> a is CancelSession,
{
    assert(!video_update_stale(v, s));
    lemma_verify_parts_cancels_only_cancels(v.parts@, ps);
    assert(video_update_actions(v, s, ts, ps) =~= verify_parts_cancels(v.parts@, ps));
}

} // verus!
