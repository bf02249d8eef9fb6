use flick_sync::list::{IdMap, ListItem};
use flick_sync::playlist::PlaylistState;

fn playlist(id: u32, title: &str) -> PlaylistState {
    PlaylistState { id, title: title.to_string(), videos: vec![] }
}

#[test]
fn decode_is_independent_of_array_order() {
    // The same three records in two different array orders decode to the
    // same identifier-keyed mapping.
    let m1 = IdMap::from_list(vec![playlist(1, "a"), playlist(2, "b"), playlist(3, "c")]);
    let m2 = IdMap::from_list(vec![playlist(3, "c"), playlist(1, "a"), playlist(2, "b")]);
    assert_eq!(m1.len(), 3);
    assert_eq!(m2.len(), 3);
    for id in [1u32, 2, 3] {
        assert_eq!(m1.get(id), m2.get(id));
        assert!(m1.get(id).is_some());
    }
}

#[test]
fn round_trip_preserves_identifiers_and_records() {
    let original = vec![playlist(1, "a"), playlist(2, "b"), playlist(3, "c")];
    let m = IdMap::from_list(original.clone());
    let encoded = m.into_list();
    let decoded = IdMap::from_list(encoded);
    for p in &original {
        assert_eq!(decoded.get(p.id), Some(p));
    }
    assert_eq!(decoded.len(), original.len());
}

#[test]
fn keys_equal_record_identifiers() {
    // Key consistency: whatever array was decoded, each record is found
    // under exactly its own identifier.
    let m = IdMap::from_list(vec![playlist(9, "x"), playlist(4, "y"), playlist(9, "z")]);
    for record in m.records() {
        let looked_up = m.get(record.id()).unwrap();
        assert_eq!(looked_up.id(), record.id());
        assert_eq!(looked_up, record);
    }
}

#[test]
fn duplicate_identifiers_later_wins() {
    let m = IdMap::from_list(vec![playlist(9, "first"), playlist(9, "second")]);
    assert_eq!(m.len(), 1);
    assert_eq!(m.get(9).unwrap().title, "second".to_string());
}

#[test]
fn insert_get_remove() {
    let mut m: IdMap<PlaylistState> = IdMap::new();
    assert!(m.is_empty());
    assert!(!m.contains_key(1));
    m.insert(playlist(1, "a"));
    m.insert(playlist(2, "b"));
    assert_eq!(m.len(), 2);
    assert_eq!(m.get(1).unwrap().title, "a".to_string());
    m.insert(playlist(1, "replaced"));
    assert_eq!(m.len(), 2);
    assert_eq!(m.get(1).unwrap().title, "replaced".to_string());
    m.remove(1);
    assert_eq!(m.get(1), None);
    assert_eq!(m.len(), 1);
    // Removing an unknown identifier is a no-op.
    m.remove(42);
    assert_eq!(m.len(), 1);
}
