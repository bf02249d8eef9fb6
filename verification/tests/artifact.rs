use flick_sync::artifact::{DownloadState, FileStatus, ThumbnailState};

#[test]
fn thumbnail_self_heals_when_file_missing() {
    let mut t = ThumbnailState::Downloaded { path: "t.jpg".to_string() };
    t.verify(FileStatus::NotFound);
    assert_eq!(t, ThumbnailState::Absent);
}

#[test]
fn thumbnail_verify_trusts_present_file() {
    let mut t = ThumbnailState::Downloaded { path: "t.jpg".to_string() };
    t.verify(FileStatus::IsFile);
    assert_eq!(t, ThumbnailState::Downloaded { path: "t.jpg".to_string() });
}

#[test]
fn thumbnail_verify_keeps_state_on_odd_observations() {
    let mut t = ThumbnailState::Downloaded { path: "t.jpg".to_string() };
    t.verify(FileStatus::NotAFile);
    assert_eq!(t, ThumbnailState::Downloaded { path: "t.jpg".to_string() });
    t.verify(FileStatus::Inaccessible);
    assert_eq!(t, ThumbnailState::Downloaded { path: "t.jpg".to_string() });
}

#[test]
fn thumbnail_verify_noop_when_absent() {
    let mut t = ThumbnailState::Absent;
    t.verify(FileStatus::NotFound);
    assert_eq!(t, ThumbnailState::Absent);
}

#[test]
fn thumbnail_delete_returns_path_and_resets() {
    let mut t = ThumbnailState::Downloaded { path: "old.jpg".to_string() };
    let removed = t.delete();
    assert_eq!(t, ThumbnailState::Absent);
    assert_eq!(removed, Some("old.jpg".to_string()));
}

#[test]
fn thumbnail_delete_idempotent_on_absent() {
    let mut t = ThumbnailState::Absent;
    assert_eq!(t.delete(), None);
    assert_eq!(t, ThumbnailState::Absent);
}

#[test]
fn download_delete_unconditional_with_session() {
    // The file may or may not exist: delete never stats, it retires.
    let mut d = DownloadState::Transcoding {
        session_id: "sess-1".to_string(),
        path: "p.mp4".to_string(),
    };
    let (removed, cancel) = d.delete();
    assert_eq!(d, DownloadState::Absent);
    assert_eq!(removed, Some("p.mp4".to_string()));
    assert_eq!(cancel, Some("sess-1".to_string()));
}

#[test]
fn download_delete_without_session() {
    let mut d = DownloadState::Downloaded { path: "p.mp4".to_string() };
    let (removed, cancel) = d.delete();
    assert_eq!(d, DownloadState::Absent);
    assert_eq!(removed, Some("p.mp4".to_string()));
    assert_eq!(cancel, None);
}

#[test]
fn download_delete_idempotent_on_absent() {
    let mut d = DownloadState::Absent;
    assert_eq!(d.delete(), (None, None));
    assert_eq!(d, DownloadState::Absent);
}

#[test]
fn download_verify_resets_and_cancels_on_missing_file() {
    let mut d = DownloadState::Transcoding {
        session_id: "sess-9".to_string(),
        path: "part.mp4".to_string(),
    };
    let cancel = d.verify(FileStatus::NotFound);
    assert_eq!(d, DownloadState::Absent);
    assert_eq!(cancel, Some("sess-9".to_string()));
}

#[test]
fn download_verify_resets_without_session_on_missing_file() {
    let mut d = DownloadState::Downloading { path: "part.mp4".to_string() };
    let cancel = d.verify(FileStatus::NotFound);
    assert_eq!(d, DownloadState::Absent);
    assert_eq!(cancel, None);
}

#[test]
fn download_verify_trusts_present_file() {
    let mut d = DownloadState::Transcoding {
        session_id: "sess-2".to_string(),
        path: "part.mp4".to_string(),
    };
    let cancel = d.verify(FileStatus::IsFile);
    assert_eq!(cancel, None);
    assert_eq!(
        d,
        DownloadState::Transcoding { session_id: "sess-2".to_string(), path: "part.mp4".to_string() }
    );
}

#[test]
fn download_verify_keeps_state_on_failed_stat() {
    let mut d = DownloadState::Downloaded { path: "part.mp4".to_string() };
    let cancel = d.verify(FileStatus::Inaccessible);
    assert_eq!(cancel, None);
    assert_eq!(d, DownloadState::Downloaded { path: "part.mp4".to_string() });
}

#[test]
fn download_accessors() {
    let d = DownloadState::Transcoding {
        session_id: "s".to_string(),
        path: "p".to_string(),
    };
    assert!(!d.is_none());
    assert_eq!(d.path(), Some(&"p".to_string()));
    assert_eq!(d.session_id(), Some(&"s".to_string()));
    let a = DownloadState::Absent;
    assert!(a.is_none());
    assert_eq!(a.path(), None);
    assert_eq!(a.session_id(), None);
    let t = ThumbnailState::Downloaded { path: "q".to_string() };
    assert!(!t.is_none());
    assert_eq!(t.path(), Some(&"q".to_string()));
}
