//! Season records: a season's place within its show, by back-reference.

use vstd::prelude::*;
use crate::error::Error;
use crate::list::ListItem;
use crate::snapshot::SeasonSnapshot;

verus! {

/// A mirrored season: identifier, owning show (by identifier, never by
/// pointer), index within the show, and display title.
#[derive(Debug, Clone, PartialEq)]
pub struct SeasonState {
    pub id: u32,
    pub show: u32,
    pub index: u32,
    pub title: String,
}

impl ListItem for SeasonState {
    open spec fn key_spec(&self) -> u32 {
        self.id
    }

    fn id(&self) -> u32 {
        self.id
    }
}

/// The remote snapshot carries every field a season record requires.
pub open spec fn season_snapshot_complete(s: SeasonSnapshot) -> bool {
    s.show is Some && s.index is Some
}

/// The incompleteness failure a season snapshot gives rise to: the first
/// required field found absent, checked in the order `show`, `index`.
pub open spec fn season_snapshot_error(s: SeasonSnapshot, e: Error) -> bool {
    match e {
        Error::ItemIncomplete(id, field) => {
            id == s.id && if s.show is None {
                field@ == "show"@
            } else {
                s.index is None && field@ == "index"@
            }
        },
        _ => false,
    }
}

/// The record `SeasonState::update` produces when the snapshot is complete:
/// show reference, index and title are overwritten, the identifier is
/// untouched.
pub open spec fn season_update_spec(r: SeasonState, s: SeasonSnapshot) -> SeasonState {
    SeasonState { id: r.id, show: s.show->0, index: s.index->0, title: s.title }
}

/// Idempotence of the refresh protocol: a second `update` against the same
/// remote snapshot leaves every field identical.
pub proof fn lemma_season_update_idempotent(r: SeasonState, s: SeasonSnapshot)
    ensures
        season_update_spec(season_update_spec(r, s), s) == season_update_spec(r, s),
{
}

impl SeasonState {
    /// Construct the record for a season observed for the first time.
    /// Fails, constructing nothing, exactly when a required field is absent
    /// from the remote metadata.
    pub fn from(s: &SeasonSnapshot) -> (r: Result<SeasonState, Error>)
        ensures
            r is Ok <==> season_snapshot_complete(*s),
            r matches Ok(rec) ==> rec == (SeasonState {
                id: s.id,
                show: s.show->0,
                index: s.index->0,
                title: s.title,
            }),
            r matches Err(e) ==> season_snapshot_error(*s, e),
    {
        let show = match s.show {
            Some(v) => v,
            None => {
                return Err(Error::ItemIncomplete(s.id, String::from_str("show")));
            },
        };
        let index = match s.index {
            Some(v) => v,
            None => {
                return Err(Error::ItemIncomplete(s.id, String::from_str("index")));
            },
        };
        Ok(SeasonState { id: s.id, show, index, title: s.title.clone() })
    }

    /// Refresh the record from a freshly fetched snapshot: show reference,
    /// index and title are overwritten, the identifier is untouched. Fails,
    /// changing nothing, exactly when a required field is absent.
    pub fn update(&mut self, s: &SeasonSnapshot) -> (r: Result<(), Error>)
        ensures
            r is Ok <==> season_snapshot_complete(*s),
            r is Ok ==> *final(self) == season_update_spec(*old(self), *s),
            r matches Err(e) ==> *final(self) == *old(self) && season_snapshot_error(*s, e),
    {
        let show = match s.show {
            Some(v) => v,
            None => {
                return Err(Error::ItemIncomplete(s.id, String::from_str("show")));
            },
        };
        let index = match s.index {
            Some(v) => v,
            None => {
                return Err(Error::ItemIncomplete(s.id, String::from_str("index")));
            },
        };
        self.show = show;
        self.index = index;
        self.title = s.title.clone();
        Ok(())
    }
}

} // verus!
