//! Show records: per-show metadata, a cached thumbnail, and the staleness
//! comparison that invalidates it.

use vstd::prelude::*;
use crate::artifact::{FileStatus, ThumbnailState, thumbnail_verify_spec};
use crate::error::Error;
use crate::list::ListItem;
use crate::snapshot::ShowSnapshot;

verus! {

/// A mirrored show: identifier, owning library (by identifier), display
/// metadata, the timestamp of the last remote change this record has
/// absorbed, and the cached thumbnail.
#[derive(Debug, Clone, PartialEq)]
pub struct ShowState {
    pub id: u32,
    pub library: u32,
    pub title: String,
    pub year: u32,
    pub last_updated: i64,
    pub thumbnail: ThumbnailState,
}

impl ListItem for ShowState {
    open spec fn key_spec(&self) -> u32 {
        self.id
    }

    fn id(&self) -> u32 {
        self.id
    }
}

/// The remote snapshot carries every field `ShowState::from` requires.
pub open spec fn show_snapshot_complete(s: ShowSnapshot) -> bool {
    s.year is Some && s.library is Some && s.updated_at is Some
}

/// The incompleteness failure a show snapshot gives rise to: the first
/// required field found absent, checked in the order `year`, `library`,
/// `updated_at`.
pub open spec fn show_snapshot_error(s: ShowSnapshot, e: Error) -> bool {
    match e {
        Error::ItemIncomplete(id, field) => {
            id == s.id && if s.year is None {
                field@ == "year"@
            } else if s.library is None {
                field@ == "library"@
            } else {
                s.updated_at is None && field@ == "updatedAt"@
            }
        },
        _ => false,
    }
}

/// The record `ShowState::update` produces, and the path whose file the
/// caller must remove, when the snapshot is complete and `status` was
/// observed at the thumbnail's recorded path. Simple metadata — the owning
/// library, title and year — is overwritten unconditionally; the thumbnail
/// first self-heals, then is discarded only if the remote item changed
/// after this record last absorbed a change; the timestamp advances, and
/// never decreases.
pub open spec fn show_update_spec(r: ShowState, s: ShowSnapshot, status: FileStatus) -> (
    ShowState,
    Option<String>,
) {
    let verified = thumbnail_verify_spec(r.thumbnail, status);
    let upd = s.updated_at->0;
    let stale = upd > r.last_updated;
    let invalidate = stale && !(verified is Absent);
    (
        ShowState {
            id: r.id,
            library: s.library->0,
            title: s.title,
            year: s.year->0,
            last_updated: if stale {
                upd
            } else {
                r.last_updated
            },
            thumbnail: if invalidate {
                ThumbnailState::Absent
            } else {
                verified
            },
        },
        if invalidate {
            verified.path_spec()
        } else {
            None
        },
    )
}

/// Idempotence of the refresh protocol: a second `update` against the same
/// remote snapshot leaves every field of the record — the thumbnail state
/// included — identical, and asks for no removal. The disk is assumed
/// unchanged in between: a thumbnail that survived the first pass is not now
/// observed vanished.
pub proof fn lemma_show_update_idempotent(
    r0: ShowState,
    s: ShowSnapshot,
    st1: FileStatus,
    st2: FileStatus,
)
    requires
        show_snapshot_complete(s),
        !(show_update_spec(r0, s, st1).0.thumbnail is Absent) ==> !(st2 is NotFound),
    ensures
        show_update_spec(show_update_spec(r0, s, st1).0, s, st2) == (
            show_update_spec(r0, s, st1).0,
            None::<String>,
        ),
{
}

impl ShowState {
    /// Construct the record for a show observed for the first time. The
    /// thumbnail starts uncached. Fails, constructing nothing, exactly when
    /// a required field is absent from the remote metadata.
    pub fn from(s: &ShowSnapshot) -> (r: Result<ShowState, Error>)
        ensures
            r is Ok <==> show_snapshot_complete(*s),
            r matches Ok(rec) ==> rec == (ShowState {
                id: s.id,
                library: s.library->0,
                title: s.title,
                year: s.year->0,
                last_updated: s.updated_at->0,
                thumbnail: ThumbnailState::Absent,
            }),
            r matches Err(e) ==> show_snapshot_error(*s, e),
    {
        let year = match s.year {
            Some(v) => v,
            None => {
                return Err(Error::ItemIncomplete(s.id, String::from_str("year")));
            },
        };
        let library = match s.library {
            Some(v) => v,
            None => {
                return Err(Error::ItemIncomplete(s.id, String::from_str("library")));
            },
        };
        let last_updated = match s.updated_at {
            Some(v) => v,
            None => {
                return Err(Error::ItemIncomplete(s.id, String::from_str("updatedAt")));
            },
        };
        Ok(
            ShowState {
                id: s.id,
                library,
                title: s.title.clone(),
                year,
                last_updated,
                thumbnail: ThumbnailState::Absent,
            },
        )
    }

    /// Refresh the record from a freshly fetched snapshot, `status` being
    /// what a stat of the thumbnail's recorded path observed. On success the
    /// record equals `show_update_spec` and the returned path, if any, is a
    /// file the caller must remove best-effort. Fails, changing nothing,
    /// exactly when a required field is absent.
    pub fn update(&mut self, s: &ShowSnapshot, status: FileStatus) -> (r: Result<
        Option<String>,
        Error,
    >)
        ensures
            r is Ok <==> show_snapshot_complete(*s),
            r matches Ok(removed) ==> (*final(self), removed) == show_update_spec(
                *old(self),
                *s,
                status,
            ),
            r matches Err(e) ==> *final(self) == *old(self) && show_snapshot_error(*s, e),
    {
        let year = match s.year {
            Some(v) => v,
            None => {
                return Err(Error::ItemIncomplete(s.id, String::from_str("year")));
            },
        };
        let library = match s.library {
            Some(v) => v,
            None => {
                return Err(Error::ItemIncomplete(s.id, String::from_str("library")));
            },
        };
        let upd = match s.updated_at {
            Some(v) => v,
            None => {
                return Err(Error::ItemIncomplete(s.id, String::from_str("updatedAt")));
            },
        };
        self.year = year;
        self.library = library;
        self.title = s.title.clone();
        self.thumbnail.verify(status);
        let mut removed: Option<String> = None;
        if upd > self.last_updated {
            if !self.thumbnail.is_none() {
                removed = self.thumbnail.delete();
            }
            self.last_updated = upd;
        }
        Ok(removed)
    }

    /// Tear the record's artifacts down before the driver discards it:
    /// self-heal the thumbnail, then retire it unconditionally. The returned
    /// path, if any, is a file the caller must remove best-effort; the
    /// thumbnail always ends uncached and every other field is untouched.
    pub fn delete(&mut self, status: FileStatus) -> (removed: Option<String>)
        ensures
            final(self).thumbnail is Absent,
            *final(self) == (ShowState {
                thumbnail: ThumbnailState::Absent,
                ..*old(self)
            }),
            removed == thumbnail_verify_spec(old(self).thumbnail, status).path_spec(),
    {
        self.thumbnail.verify(status);
        if !self.thumbnail.is_none() {
            self.thumbnail.delete()
        } else {
            None
        }
    }
}

} // verus!
