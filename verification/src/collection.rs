//! Collection records: membership of videos in a curated collection, a
//! cached thumbnail, and the staleness comparison that invalidates it.

use vstd::prelude::*;
use std::collections::HashSet;
use crate::artifact::{FileStatus, ThumbnailState, thumbnail_verify_spec};
use crate::error::Error;
use crate::list::ListItem;
use crate::snapshot::CollectionSnapshot;

verus! {

broadcast use vstd::std_specs::hash::group_hash_axioms;

/// A mirrored collection: identifier, owning library (by identifier),
/// display title, the member videos (membership only, not ownership), the
/// timestamp of the last remote change this record has absorbed, and the
/// cached thumbnail.
#[derive(Debug, PartialEq)]
pub struct CollectionState {
    pub id: u32,
    pub library: u32,
    pub title: String,
    pub items: HashSet<u32>,
    pub last_updated: i64,
    pub thumbnail: ThumbnailState,
}

impl ListItem for CollectionState {
    open spec fn key_spec(&self) -> u32 {
        self.id
    }

    fn id(&self) -> u32 {
        self.id
    }
}

/// The remote snapshot carries every field `CollectionState::from`
/// requires.
pub open spec fn collection_snapshot_complete(s: CollectionSnapshot) -> bool {
    s.library is Some && s.updated_at is Some
}

/// The incompleteness failure a collection snapshot gives rise to: the
/// first required field found absent, checked in the order `library`,
/// `updated_at`.
pub open spec fn collection_snapshot_error(s: CollectionSnapshot, e: Error) -> bool {
    match e {
        Error::ItemIncomplete(id, field) => {
            id == s.id && if s.library is None {
                field@ == "library"@
            } else {
                s.updated_at is None && field@ == "updatedAt"@
            }
        },
        _ => false,
    }
}

/// The record `CollectionState::update` produces, and the path whose file
/// the caller must remove: the owning library and title are overwritten,
/// the thumbnail self-heals and is then discarded only if the remote item
/// changed after this record last absorbed a change, membership is
/// untouched (the driver maintains it), and the timestamp advances, never
/// decreasing.
pub open spec fn collection_update_spec(
    r: CollectionState,
    s: CollectionSnapshot,
    status: FileStatus,
) -> (CollectionState, Option<String>) {
    let verified = thumbnail_verify_spec(r.thumbnail, status);
    let upd = s.updated_at->0;
    let stale = upd > r.last_updated;
    let invalidate = stale && !(verified is Absent);
    (
        CollectionState {
            id: r.id,
            library: s.library->0,
            title: s.title,
            items: r.items,
            last_updated: if stale {
                upd
            } else {
                r.last_updated
            },
            thumbnail: if invalidate {
                ThumbnailState::Absent
            } else {
                verified
            },
        },
        if invalidate {
            verified.path_spec()
        } else {
            None
        },
    )
}

/// Idempotence of the refresh protocol: a second `update` against the same
/// remote snapshot leaves every field of the record — the thumbnail state
/// and the membership included — identical, and asks for no removal. The
/// disk is assumed unchanged in between: a thumbnail that survived the first
/// pass is not now observed vanished.
pub proof fn lemma_collection_update_idempotent(
    r0: CollectionState,
    s: CollectionSnapshot,
    st1: FileStatus,
    st2: FileStatus,
)
    requires
        collection_snapshot_complete(s),
        !(collection_update_spec(r0, s, st1).0.thumbnail is Absent) ==> !(st2 is NotFound),
    ensures
        collection_update_spec(collection_update_spec(r0, s, st1).0, s, st2) == (
            collection_update_spec(r0, s, st1).0,
            None::<String>,
        ),
{
}

impl CollectionState {
    /// Construct the record for a collection observed for the first time.
    /// Membership starts empty (the driver fills it in) and the thumbnail
    /// uncached. Fails, constructing nothing, exactly when a required field
    /// is absent from the remote metadata.
    pub fn from(s: &CollectionSnapshot) -> (r: Result<CollectionState, Error>)
        ensures
            r is Ok <==> collection_snapshot_complete(*s),
            r matches Ok(rec) ==> rec.id == s.id && rec.library == s.library->0 && rec.title
                == s.title && rec.items@ == Set::<u32>::empty() && rec.last_updated
                == s.updated_at->0 && rec.thumbnail is Absent,
            r matches Err(e) ==> collection_snapshot_error(*s, e),
    {
        let library = match s.library {
            Some(v) => v,
            None => {
                return Err(Error::ItemIncomplete(s.id, String::from_str("library")));
            },
        };
        let last_updated = match s.updated_at {
            Some(v) => v,
            None => {
                return Err(Error::ItemIncomplete(s.id, String::from_str("updatedAt")));
            },
        };
        Ok(
            CollectionState {
                id: s.id,
                library,
                title: s.title.clone(),
                items: HashSet::new(),
                last_updated,
                thumbnail: ThumbnailState::Absent,
            },
        )
    }

    /// Refresh the record from a freshly fetched snapshot, `status` being
    /// what a stat of the thumbnail's recorded path observed. On success the
    /// record equals `collection_update_spec` and the returned path, if any,
    /// is a file the caller must remove best-effort. Fails, changing
    /// nothing, exactly when a required field is absent.
    pub fn update(&mut self, s: &CollectionSnapshot, status: FileStatus) -> (r: Result<
        Option<String>,
        Error,
    >)
        ensures
            r is Ok <==> collection_snapshot_complete(*s),
            r matches Ok(removed) ==> (*final(self), removed) == collection_update_spec(
                *old(self),
                *s,
                status,
            ),
            r matches Err(e) ==> *final(self) == *old(self) && collection_snapshot_error(*s, e),
    {
        let library = match s.library {
            Some(v) => v,
            None => {
                return Err(Error::ItemIncomplete(s.id, String::from_str("library")));
            },
        };
        let upd = match s.updated_at {
            Some(v) => v,
            None => {
                return Err(Error::ItemIncomplete(s.id, String::from_str("updatedAt")));
            },
        };
        self.library = library;
        self.title = s.title.clone();
        self.thumbnail.verify(status);
        let mut removed: Option<String> = None;
        if upd > self.last_updated {
            if !self.thumbnail.is_none() {
                removed = self.thumbnail.delete();
            }
            self.last_updated = upd;
        }
        Ok(removed)
    }

    /// Tear the record's artifacts down before the driver discards it:
    /// self-heal the thumbnail, then retire it unconditionally. The returned
    /// path, if any, is a file the caller must remove best-effort; the
    /// thumbnail always ends uncached and every other field is untouched.
    pub fn delete(&mut self, status: FileStatus) -> (removed: Option<String>)
        ensures
            final(self).thumbnail is Absent,
            *final(self) == (CollectionState {
                thumbnail: ThumbnailState::Absent,
                ..*old(self)
            }),
            removed == thumbnail_verify_spec(old(self).thumbnail, status).path_spec(),
    {
        self.thumbnail.verify(status);
        if !self.thumbnail.is_none() {
            self.thumbnail.delete()
        } else {
            None
        }
    }
}

} // verus!
