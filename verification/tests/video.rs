use flick_sync::artifact::{CleanupAction, DownloadState, FileStatus, ThumbnailState};
use flick_sync::error::Error;
use flick_sync::snapshot::{MediaSnapshot, PartSnapshot, VideoKind, VideoSnapshot};
use flick_sync::video::{VideoDetail, VideoState};

fn movie_snapshot(id: u32, updated_at: i64) -> VideoSnapshot {
    VideoSnapshot {
        id,
        title: "A Movie".to_string(),
        kind: VideoKind::Movie,
        library: Some(3),
        year: Some(2001),
        season: None,
        index: None,
        air_date: Some("2001-01-02".to_string()),
        updated_at: Some(updated_at),
        media: vec![MediaSnapshot {
            id: 77,
            parts: vec![PartSnapshot { duration: Some(5400000) }],
        }],
    }
}

fn episode_snapshot(id: u32, updated_at: i64) -> VideoSnapshot {
    VideoSnapshot {
        id,
        title: "An Episode".to_string(),
        kind: VideoKind::Episode,
        library: None,
        year: None,
        season: Some(21),
        index: Some(4),
        air_date: Some("2010-09-30".to_string()),
        updated_at: Some(updated_at),
        media: vec![MediaSnapshot {
            id: 88,
            parts: vec![
                PartSnapshot { duration: Some(100) },
                PartSnapshot { duration: Some(200) },
            ],
        }],
    }
}

#[test]
fn from_builds_movie_record() {
    let v = VideoState::from(&movie_snapshot(5, 100)).unwrap();
    assert_eq!(v.id, 5);
    assert_eq!(v.title, "A Movie".to_string());
    assert_eq!(v.air_date, "2001-01-02".to_string());
    assert_eq!(v.media_id, 77);
    assert_eq!(v.last_updated, 100);
    assert_eq!(v.thumbnail, ThumbnailState::Absent);
    assert_eq!(v.parts.len(), 1);
    assert_eq!(v.parts[0].duration, 5400000);
    assert_eq!(v.parts[0].download, DownloadState::Absent);
    let m = v.movie_state();
    assert_eq!(m.library, 3);
    assert_eq!(m.year, 2001);
}

#[test]
fn from_builds_episode_record() {
    let v = VideoState::from(&episode_snapshot(9, 40)).unwrap();
    assert_eq!(v.parts.len(), 2);
    assert_eq!(v.parts[1].duration, 200);
    let e = v.episode_state();
    assert_eq!(e.season, 21);
    assert_eq!(e.index, 4);
    assert!(matches!(v.detail, VideoDetail::Episode(_)));
}

#[test]
fn from_rejects_unrecognized_kind() {
    let mut s = movie_snapshot(5, 100);
    s.kind = VideoKind::Unrecognized;
    assert_eq!(VideoState::from(&s).unwrap_err(), Error::ItemNotSupported(5));
}

#[test]
fn from_reports_first_missing_field() {
    let mut s = movie_snapshot(5, 100);
    s.year = None;
    assert_eq!(
        VideoState::from(&s).unwrap_err(),
        Error::ItemIncomplete(5, "year".to_string())
    );

    let mut s = episode_snapshot(6, 100);
    s.season = None;
    assert_eq!(
        VideoState::from(&s).unwrap_err(),
        Error::ItemIncomplete(6, "season".to_string())
    );

    let mut s = movie_snapshot(7, 100);
    s.media = vec![];
    assert_eq!(
        VideoState::from(&s).unwrap_err(),
        Error::ItemIncomplete(7, "media".to_string())
    );

    let mut s = movie_snapshot(8, 100);
    s.media[0].parts[0].duration = None;
    assert_eq!(
        VideoState::from(&s).unwrap_err(),
        Error::ItemIncomplete(8, "duration".to_string())
    );

    let mut s = movie_snapshot(9, 100);
    s.air_date = None;
    assert_eq!(
        VideoState::from(&s).unwrap_err(),
        Error::ItemIncomplete(9, "airDate".to_string())
    );

    let mut s = movie_snapshot(10, 100);
    s.updated_at = None;
    assert_eq!(
        VideoState::from(&s).unwrap_err(),
        Error::ItemIncomplete(10, "updatedAt".to_string())
    );
}

#[test]
fn update_overwrites_movie_library() {
    let mut v = VideoState::from(&movie_snapshot(5, 100)).unwrap();
    let mut s = movie_snapshot(5, 100);
    s.library = Some(8);
    v.update(&s, FileStatus::NotFound, &vec![FileStatus::NotFound]).unwrap();
    assert_eq!(v.movie_state().library, 8);
}

#[test]
fn update_requires_movie_library() {
    let mut v = VideoState::from(&movie_snapshot(5, 100)).unwrap();
    let mut s = movie_snapshot(5, 101);
    s.library = None;
    let before = v.clone();
    assert_eq!(
        v.update(&s, FileStatus::NotFound, &vec![FileStatus::NotFound]).unwrap_err(),
        Error::ItemIncomplete(5, "library".to_string())
    );
    assert_eq!(v, before);
}

#[test]
fn staleness_invalidates_downloaded_part() {
    // A record at T = 100 with a downloaded part; the remote item moved to
    // T + 1, so the cached artifact is stale: it is reset and its file
    // scheduled for removal, and the new timestamp adopted.
    let mut v = VideoState::from(&movie_snapshot(5, 100)).unwrap();
    v.parts[0].download = DownloadState::Downloaded { path: "p".to_string() };
    let actions = v
        .update(&movie_snapshot(5, 101), FileStatus::NotFound, &vec![FileStatus::IsFile])
        .unwrap();
    assert_eq!(v.parts[0].download, DownloadState::Absent);
    assert_eq!(v.last_updated, 101);
    assert!(actions.contains(&CleanupAction::RemoveFile("p".to_string())));
}

#[test]
fn equal_timestamp_keeps_artifacts() {
    // Same as above but the remote timestamp equals the record's: state and
    // file are untouched and no cleanup is asked for.
    let mut v = VideoState::from(&movie_snapshot(5, 100)).unwrap();
    v.parts[0].download = DownloadState::Downloaded { path: "p".to_string() };
    let actions = v
        .update(&movie_snapshot(5, 100), FileStatus::NotFound, &vec![FileStatus::IsFile])
        .unwrap();
    assert_eq!(v.parts[0].download, DownloadState::Downloaded { path: "p".to_string() });
    assert_eq!(v.last_updated, 100);
    assert!(actions.is_empty());
}

#[test]
fn update_twice_is_idempotent() {
    // Two passes against one unchanged remote snapshot: the second changes
    // nothing at all and asks for no cleanup.
    let mut v = VideoState::from(&movie_snapshot(5, 100)).unwrap();
    v.parts[0].download = DownloadState::Downloaded { path: "p".to_string() };
    v.thumbnail = ThumbnailState::Downloaded { path: "t.jpg".to_string() };
    let snapshot = movie_snapshot(5, 150);
    v.update(&snapshot, FileStatus::IsFile, &vec![FileStatus::IsFile]).unwrap();
    let after_first = v.clone();
    let actions = v
        .update(&snapshot, FileStatus::NotFound, &vec![FileStatus::NotFound])
        .unwrap();
    assert_eq!(v, after_first);
    assert!(actions.is_empty());
}

#[test]
fn update_self_heals_before_judging_staleness() {
    // The part's file vanished out-of-band: verify heals it to Absent, so
    // the stale-branch has nothing left to remove for that part.
    let mut v = VideoState::from(&movie_snapshot(5, 100)).unwrap();
    v.parts[0].download = DownloadState::Transcoding {
        session_id: "sess".to_string(),
        path: "p".to_string(),
    };
    let actions = v
        .update(&movie_snapshot(5, 200), FileStatus::NotFound, &vec![FileStatus::NotFound])
        .unwrap();
    assert_eq!(v.parts[0].download, DownloadState::Absent);
    assert_eq!(v.last_updated, 200);
    // The healed part asked for its session to be cancelled, once, and no
    // file removal.
    assert_eq!(actions, vec![CleanupAction::CancelSession("sess".to_string())]);
}

#[test]
fn update_preserves_variant_and_errors_on_missing_variant_field() {
    let mut v = VideoState::from(&episode_snapshot(9, 40)).unwrap();
    let mut s = episode_snapshot(9, 41);
    s.index = None;
    let before = v.clone();
    assert_eq!(
        v.update(&s, FileStatus::NotFound, &vec![FileStatus::NotFound, FileStatus::NotFound])
            .unwrap_err(),
        Error::ItemIncomplete(9, "index".to_string())
    );
    assert_eq!(v, before);
}

#[test]
fn update_rejects_unrecognized_kind() {
    let mut v = VideoState::from(&movie_snapshot(5, 100)).unwrap();
    let mut s = movie_snapshot(5, 101);
    s.kind = VideoKind::Unrecognized;
    let before = v.clone();
    assert_eq!(
        v.update(&s, FileStatus::IsFile, &vec![FileStatus::IsFile]).unwrap_err(),
        Error::ItemNotSupported(5)
    );
    assert_eq!(v, before);
}

#[test]
fn delete_retires_everything_and_cancels_once() {
    // Unconditional teardown: file removed (the stat saw it), the session
    // cancelled exactly once, every artifact Absent afterwards.
    let mut v = VideoState::from(&movie_snapshot(5, 100)).unwrap();
    v.thumbnail = ThumbnailState::Downloaded { path: "t.jpg".to_string() };
    v.parts[0].download = DownloadState::Transcoding {
        session_id: "sess".to_string(),
        path: "p".to_string(),
    };
    let actions = v.delete(FileStatus::IsFile, &vec![FileStatus::IsFile]);
    assert_eq!(v.thumbnail, ThumbnailState::Absent);
    assert_eq!(v.parts[0].download, DownloadState::Absent);
    assert_eq!(v.last_updated, 100);
    assert_eq!(
        actions,
        vec![
            CleanupAction::RemoveFile("t.jpg".to_string()),
            CleanupAction::RemoveFile("p".to_string()),
            CleanupAction::CancelSession("sess".to_string()),
        ]
    );
    let cancels = actions
        .iter()
        .filter(|a| matches!(a, CleanupAction::CancelSession(_)))
        .count();
    assert_eq!(cancels, 1);
}

#[test]
fn delete_on_vanished_files_still_resets() {
    let mut v = VideoState::from(&movie_snapshot(5, 100)).unwrap();
    v.thumbnail = ThumbnailState::Downloaded { path: "t.jpg".to_string() };
    v.parts[0].download = DownloadState::Downloaded { path: "p".to_string() };
    let actions = v.delete(FileStatus::NotFound, &vec![FileStatus::NotFound]);
    assert_eq!(v.thumbnail, ThumbnailState::Absent);
    assert_eq!(v.parts[0].download, DownloadState::Absent);
    // Both files were already gone: verify healed them, nothing to remove.
    assert!(actions.is_empty());
}
