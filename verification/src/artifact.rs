//! Artifact state machines: the per-file cache states for thumbnails and for
//! downloaded or transcoded video parts, and their `verify` / `delete`
//! transitions.
//!
//! Neither machine touches the filesystem or the remote server itself. The
//! caller stats the recorded path and hands in the outcome as a [`FileStatus`];
//! each transition hands back the cleanup it requires (a file to remove, a
//! transcode session to cancel) for the caller to perform best-effort.

use vstd::prelude::*;

verus! {

/// What a stat of an artifact's recorded path observed.
#[derive(Debug, Clone, Copy, PartialEq, Eq, Structural)]
pub enum FileStatus {
    /// The path exists and is a regular file.
    IsFile,
    /// The path exists but is not a regular file.
    NotAFile,
    /// The path does not exist.
    NotFound,
    /// The stat failed for a reason other than not-found.
    Inaccessible,
}

/// Cache state of a thumbnail image: either no cached image, or an image
/// cached at a path relative to the store root.
#[derive(Debug, Clone, PartialEq)]
pub enum ThumbnailState {
    Absent,
    Downloaded { path: String },
}

/// The state a thumbnail reaches when `verify` observes `status` at its
/// recorded path: a vanished file self-heals to `Absent`; anything else leaves
/// the recorded state untouched.
pub open spec fn thumbnail_verify_spec(t: ThumbnailState, status: FileStatus) -> ThumbnailState {
    match t {
        ThumbnailState::Absent => ThumbnailState::Absent,
        ThumbnailState::Downloaded { path } => {
            if status is NotFound {
                ThumbnailState::Absent
            } else {
                ThumbnailState::Downloaded { path }
            }
        },
    }
}

impl ThumbnailState {
    /// The recorded path, at the specification level.
    pub open spec fn path_spec(&self) -> Option<String> {
        match *self {
            ThumbnailState::Absent => None,
            ThumbnailState::Downloaded { path } => Some(path),
        }
    }

    /// True exactly when no thumbnail is cached.
    pub fn is_none(&self) -> (r: bool)
        ensures
            r == (*self is Absent),
    {
        matches!(self, ThumbnailState::Absent)
    }

    /// The recorded path, if an image is cached: the path the caller must
    /// stat before `verify`, relative to the store root.
    pub fn path(&self) -> (r: Option<&String>)
        ensures
            match *self {
                ThumbnailState::Absent => r is None,
                ThumbnailState::Downloaded { path } => r == Some(&path),
            },
    {
        match self {
            ThumbnailState::Absent => None,
            ThumbnailState::Downloaded { path } => Some(path),
        }
    }

    /// Reconcile the recorded state with what a stat of the recorded path
    /// observed. A missing file is treated as "never downloaded", not as an
    /// error; any other observation (including a failed stat) leaves the
    /// state as recorded so a later pass can retry.
    pub fn verify(&mut self, status: FileStatus)
        ensures
            *final(self) == thumbnail_verify_spec(*old(self), status),
    {
        if let ThumbnailState::Downloaded { path: _ } = self {
            if status == FileStatus::NotFound {
                *self = ThumbnailState::Absent;
            }
        }
    }

    /// Retire the cached image unconditionally. Returns the path whose file
    /// the caller must remove (best-effort: a failed removal does not undo
    /// the transition). Idempotent: on `Absent` nothing is returned.
    pub fn delete(&mut self) -> (removed: Option<String>)
        ensures
            *final(self) is Absent,
            match *old(self) {
                ThumbnailState::Absent => removed is None,
                ThumbnailState::Downloaded { path } => removed == Some(path),
            },
    {
        let removed = match self {
            ThumbnailState::Absent => None,
            ThumbnailState::Downloaded { path } => Some(path.clone()),
        };
        *self = ThumbnailState::Absent;
        removed
    }
}

/// Cache state of one video part. `Downloading` is a direct-copy fetch in
/// progress (or complete but not yet promoted); `Transcoding` additionally
/// references a remote transcode session by identifier; `Downloaded` and
/// `Transcoded` are the terminal success states, distinguished by provenance.
#[derive(Debug, Clone, PartialEq)]
pub enum DownloadState {
    Absent,
    Downloading { path: String },
    Transcoding { session_id: String, path: String },
    Downloaded { path: String },
    Transcoded { path: String },
}

/// The result of `DownloadState::verify` when `status` was observed at the
/// recorded path: the state reached, and the transcode session the caller
/// must cancel, if any. A present file is trusted and left alone; a vanished
/// file resets the state to `Absent`, cancelling a carried session; a failed
/// stat leaves the state as recorded.
pub open spec fn download_verify_spec(d: DownloadState, status: FileStatus) -> (DownloadState, Option<
    String,
>) {
    match d {
        DownloadState::Absent => (DownloadState::Absent, None),
        DownloadState::Transcoding { session_id, path } => {
            if status is NotFound {
                (DownloadState::Absent, Some(session_id))
            } else {
                (DownloadState::Transcoding { session_id, path }, None)
            }
        },
        _ => {
            if status is NotFound {
                (DownloadState::Absent, None)
            } else {
                (d, None)
            }
        },
    }
}

/// The result of `DownloadState::delete`: the state reached (always
/// `Absent`), the path whose file the caller must remove, and the transcode
/// session the caller must cancel, if any. Unconditional on the recorded
/// path: `delete` retires the artifact whether or not the file still exists.
pub open spec fn download_delete_spec(d: DownloadState) -> (DownloadState, Option<String>, Option<
    String,
>) {
    match d {
        DownloadState::Absent => (DownloadState::Absent, None, None),
        DownloadState::Downloading { path } => (DownloadState::Absent, Some(path), None),
        DownloadState::Transcoding { session_id, path } => (
            DownloadState::Absent,
            Some(path),
            Some(session_id),
        ),
        DownloadState::Downloaded { path } => (DownloadState::Absent, Some(path), None),
        DownloadState::Transcoded { path } => (DownloadState::Absent, Some(path), None),
    }
}

impl DownloadState {
    /// The recorded path, at the specification level.
    pub open spec fn path_spec(&self) -> Option<String> {
        match *self {
            DownloadState::Absent => None,
            DownloadState::Downloading { path } => Some(path),
            DownloadState::Transcoding { session_id, path } => Some(path),
            DownloadState::Downloaded { path } => Some(path),
            DownloadState::Transcoded { path } => Some(path),
        }
    }

    /// The referenced transcode session, at the specification level.
    pub open spec fn session_id_spec(&self) -> Option<String> {
        match *self {
            DownloadState::Transcoding { session_id, path } => Some(session_id),
            _ => None,
        }
    }

    /// True exactly when no artifact is recorded for this part.
    pub fn is_none(&self) -> (r: bool)
        ensures
            r == (*self is Absent),
    {
        matches!(self, DownloadState::Absent)
    }

    /// The recorded path, if any artifact is recorded: the path the caller
    /// must stat before `verify`, relative to the store root.
    pub fn path(&self) -> (r: Option<&String>)
        ensures
            match *self {
                DownloadState::Absent => r is None,
                DownloadState::Downloading { path } => r == Some(&path),
                DownloadState::Transcoding { session_id, path } => r == Some(&path),
                DownloadState::Downloaded { path } => r == Some(&path),
                DownloadState::Transcoded { path } => r == Some(&path),
            },
    {
        match self {
            DownloadState::Absent => None,
            DownloadState::Downloading { path } => Some(path),
            DownloadState::Transcoding { session_id: _, path } => Some(path),
            DownloadState::Downloaded { path } => Some(path),
            DownloadState::Transcoded { path } => Some(path),
        }
    }

    /// The remote transcode session this state references, if any. The
    /// record holds a reference to that session, not ownership of it.
    pub fn session_id(&self) -> (r: Option<&String>)
        ensures
            match *self {
                DownloadState::Transcoding { session_id, path } => r == Some(&session_id),
                _ => r is None,
            },
    {
        match self {
            DownloadState::Transcoding { session_id, path: _ } => Some(session_id),
            _ => None,
        }
    }

    /// Reconcile the recorded state with what a stat of the recorded path
    /// observed. An in-progress or completed artifact whose file is present
    /// is trusted and left alone (so a restart can resume it); a vanished
    /// file resets the state to `Absent`, and the returned session, if any,
    /// must be cancelled best-effort by the caller. A failed stat leaves the
    /// state as recorded so a later pass can retry.
    pub fn verify(&mut self, status: FileStatus) -> (cancel: Option<String>)
        ensures
            (*final(self), cancel) == download_verify_spec(*old(self), status),
    {
        if self.is_none() {
            return None;
        }
        if status != FileStatus::NotFound {
            return None;
        }
        let cancel = match self {
            DownloadState::Transcoding { session_id, path: _ } => Some(session_id.clone()),
            _ => None,
        };
        *self = DownloadState::Absent;
        cancel
    }

    /// Retire the artifact unconditionally: the caller must remove the file
    /// at the returned path and cancel the returned session, both
    /// best-effort (a failure does not undo the transition). Idempotent: on
    /// `Absent` nothing is returned.
    pub fn delete(&mut self) -> (r: (Option<String>, Option<String>))
        ensures
            (*final(self), r.0, r.1) == download_delete_spec(*old(self)),
    {
        let r = match self {
            DownloadState::Absent => (None, None),
            DownloadState::Downloading { path } => (Some(path.clone()), None),
            DownloadState::Transcoding { session_id, path } => (
                Some(path.clone()),
                Some(session_id.clone()),
            ),
            DownloadState::Downloaded { path } => (Some(path.clone()), None),
            DownloadState::Transcoded { path } => (Some(path.clone()), None),
        };
        *self = DownloadState::Absent;
        r
    }
}

/// One side effect a transition asks its caller to perform, best-effort: a
/// failure to carry it out is logged by the caller and never undoes the
/// transition that requested it.
#[derive(Debug, Clone, PartialEq)]
pub enum CleanupAction {
    /// Remove the file at this path, relative to the store root. Tolerates
    /// the file being already gone.
    RemoveFile(String),
    /// Cancel this remote transcode session. Tolerates the session being
    /// already gone.
    CancelSession(String),
}

/// Self-healing: a recorded thumbnail whose file is observed absent is reset
/// to `Absent` by `verify`, with no error surfaced; any other observation
/// leaves the state untouched.
pub proof fn lemma_thumbnail_self_heal(path: String, status: FileStatus)
    ensures
        status is NotFound ==> thumbnail_verify_spec(
            ThumbnailState::Downloaded { path },
            status,
        ) is Absent,
        !(status is NotFound) ==> thumbnail_verify_spec(ThumbnailState::Downloaded { path }, status)
            == (ThumbnailState::Downloaded { path }),
{
}

/// Unconditional delete: retiring any non-`Absent` download state reaches
/// `Absent`, asks for exactly one removal of the recorded file, and — when a
/// transcode session is carried — asks for exactly one cancel of exactly that
/// session, regardless of whether the file still exists.
pub proof fn lemma_download_delete_unconditional(d: DownloadState)
    requires
        !(d is Absent),
    ensures
        download_delete_spec(d).0 is Absent,
        download_delete_spec(d).1 == d.path_spec(),
        download_delete_spec(d).1 is Some,
        download_delete_spec(d).2 == d.session_id_spec(),
{
}

} // verus!
