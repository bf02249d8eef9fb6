use flick_sync::error::Error;
use flick_sync::list::IdMap;
use flick_sync::server::ServerState;
use flick_sync::snapshot::{MediaSnapshot, PartSnapshot, VideoKind, VideoSnapshot};
use flick_sync::state::{ServerMap, State};
use flick_sync::video::VideoState;

#[test]
fn default_state_has_fresh_client_id_and_no_servers() {
    let state = State::default();
    assert_eq!(state.client_id.len(), 38);
    assert!(state.client_id.starts_with('{'));
    assert!(state.client_id.ends_with('}'));
    assert_eq!(state.servers.len(), 0);
    // Generated once per installation: two first runs must not collide.
    let other = State::default();
    assert_ne!(state.client_id, other.client_id);
}

#[test]
fn default_server_state_is_empty() {
    let server = ServerState::default();
    assert_eq!(server.token, String::new());
    assert_eq!(server.name, String::new());
    assert_eq!(server.playlists, IdMap::new());
    assert!(server.videos.is_empty());
    assert!(server.shows.is_empty());
    assert!(server.seasons.is_empty());
    assert!(server.libraries.is_empty());
    assert!(server.collections.is_empty());
}

#[test]
fn server_map_insert_get_remove() {
    let mut servers = ServerMap::new();
    let mut one = ServerState::default();
    one.name = "Living Room".to_string();
    servers.insert("srv-1".to_string(), one);
    let mut two = ServerState::default();
    two.name = "Attic".to_string();
    servers.insert("srv-2".to_string(), two);
    assert_eq!(servers.len(), 2);
    assert_eq!(servers.get(&"srv-1".to_string()).unwrap().name, "Living Room".to_string());
    assert_eq!(servers.get(&"missing".to_string()), None);

    let mut replacement = ServerState::default();
    replacement.name = "Renamed".to_string();
    servers.insert("srv-1".to_string(), replacement);
    assert_eq!(servers.len(), 2);
    assert_eq!(servers.get(&"srv-1".to_string()).unwrap().name, "Renamed".to_string());

    servers.remove(&"srv-1".to_string());
    assert_eq!(servers.get(&"srv-1".to_string()), None);
    assert_eq!(servers.len(), 1);
}

#[test]
fn select_servers_empty_request_yields_all() {
    let mut state = State::default();
    state.servers.insert("srv-1".to_string(), ServerState::default());
    state.servers.insert("srv-2".to_string(), ServerState::default());
    let ids = state.select_servers(&vec![]).unwrap();
    assert_eq!(ids, vec!["srv-1".to_string(), "srv-2".to_string()]);
}

#[test]
fn select_servers_resolves_named_servers() {
    let mut state = State::default();
    state.servers.insert("srv-1".to_string(), ServerState::default());
    state.servers.insert("srv-2".to_string(), ServerState::default());
    let ids = state.select_servers(&vec!["srv-2".to_string()]).unwrap();
    assert_eq!(ids, vec!["srv-2".to_string()]);
}

#[test]
fn select_servers_reports_first_unknown() {
    let mut state = State::default();
    state.servers.insert("srv-1".to_string(), ServerState::default());
    let err = state
        .select_servers(&vec!["srv-1".to_string(), "nope".to_string()])
        .unwrap_err();
    assert_eq!(err, Error::UnknownServer("nope".to_string()));
}

#[test]
fn server_collections_key_videos_by_identifier() {
    let snapshot = VideoSnapshot {
        id: 64,
        title: "A Movie".to_string(),
        kind: VideoKind::Movie,
        library: Some(1),
        year: Some(2020),
        season: None,
        index: None,
        air_date: Some("2020-05-05".to_string()),
        updated_at: Some(10),
        media: vec![MediaSnapshot { id: 3, parts: vec![PartSnapshot { duration: Some(9) }] }],
    };
    let video = VideoState::from(&snapshot).unwrap();
    let mut server = ServerState::default();
    server.videos.insert(video);
    let held = server.videos.get(64).unwrap();
    assert_eq!(held.id, 64);
    assert_eq!(server.videos.get(65), None);
}
