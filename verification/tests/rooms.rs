use broadcast_rooms::models::{BroadcasterMetaData, Room, ViewerMetaData};
use broadcast_rooms::roles::broadcaster::start_broadcast::{collect_track, start, wants_track, TRACKS_PER_BROADCAST};
use broadcast_rooms::roles::broadcaster::terminate_broadcast::stop;
use broadcast_rooms::roles::viewer::{admit_viewer, enter_room, retain_open, EntryDecision};
use broadcast_rooms::rooms::RoomMap;

fn broadcaster(tx: u64, peer: u64, tracks: Vec<u64>) -> BroadcasterMetaData {
    BroadcasterMetaData::new(tx, peer, tracks)
}

fn viewer(tx: u64, peer: u64) -> ViewerMetaData {
    ViewerMetaData { transmiter: tx, viewer_peer: peer }
}

#[test]
fn new_room_has_no_viewers() {
    let room = Room::new(broadcaster(1, 2, vec![3, 4]));
    assert!(room.room_users.is_empty());
    assert_eq!(room.broadcaster.transmiter, 1);
    assert_eq!(room.broadcaster.broadcaster_peer, 2);
    assert_eq!(room.broadcaster.track_channel_rx, vec![3, 4]);
}

#[test]
fn room_map_insert_get_remove() {
    let mut m = RoomMap::new();
    let a = "a".to_string();
    let b = "b".to_string();
    assert!(!m.contains_key(&a));
    assert!(m.insert(a.clone(), Room::new(broadcaster(1, 2, vec![]))).is_none());
    assert!(m.insert(b.clone(), Room::new(broadcaster(5, 6, vec![]))).is_none());
    assert!(m.contains_key(&a));
    assert_eq!(m.get(&a).unwrap().broadcaster.transmiter, 1);
    assert_eq!(m.get(&b).unwrap().broadcaster.transmiter, 5);
    let old = m.insert(a.clone(), Room::new(broadcaster(7, 8, vec![])));
    assert_eq!(old.unwrap().broadcaster.transmiter, 1);
    assert_eq!(m.get(&a).unwrap().broadcaster.transmiter, 7);
    let removed = m.remove(&a).unwrap();
    assert_eq!(removed.broadcaster.transmiter, 7);
    assert!(m.get(&a).is_none());
    assert!(m.remove(&a).is_none());
    assert_eq!(m.get(&b).unwrap().broadcaster.transmiter, 5);
}

#[test]
fn start_opens_empty_room_and_replaces() {
    let mut m = RoomMap::new();
    let name = "live".to_string();
    start(name.clone(), broadcaster(1, 2, vec![10, 11]), &mut m);
    admit_viewer(&name, viewer(20, 21), &vec![true], &mut m);
    assert_eq!(m.get(&name).unwrap().room_users.len(), 1);
    start(name.clone(), broadcaster(3, 4, vec![12, 13]), &mut m);
    let room = m.get(&name).unwrap();
    assert!(room.room_users.is_empty());
    assert_eq!(room.broadcaster.transmiter, 3);
}

#[test]
fn stop_after_start_closes_nothing() {
    let mut m = RoomMap::new();
    let name = "r".to_string();
    start(name.clone(), broadcaster(1, 2, vec![10, 11]), &mut m);
    let closed = stop(&name, &mut m);
    assert!(closed.is_empty());
    assert!(!m.contains_key(&name));
}

#[test]
fn stop_returns_viewer_channels_in_order() {
    let mut m = RoomMap::new();
    let name = "r".to_string();
    let other = "other".to_string();
    start(name.clone(), broadcaster(1, 2, vec![10, 11]), &mut m);
    start(other.clone(), broadcaster(8, 9, vec![10, 11]), &mut m);
    admit_viewer(&name, viewer(30, 31), &vec![true], &mut m);
    admit_viewer(&name, viewer(40, 41), &vec![true, true], &mut m);
    let closed = stop(&name, &mut m);
    assert_eq!(closed, vec![30, 40]);
    assert!(!m.contains_key(&name));
    assert!(m.contains_key(&other));
}

#[test]
fn enter_missing_room() {
    let mut m = RoomMap::new();
    let d = enter_room(&"nope".to_string(), true, &mut m);
    assert!(matches!(d, EntryDecision::NoSuchRoom));
}

#[test]
fn enter_room_of_gone_broadcaster_closes_it() {
    let mut m = RoomMap::new();
    let name = "r".to_string();
    start(name.clone(), broadcaster(1, 2, vec![10, 11]), &mut m);
    let d = enter_room(&name, false, &mut m);
    assert!(matches!(d, EntryDecision::BroadcastOffline));
    assert!(!m.contains_key(&name));
    let again = enter_room(&name, true, &mut m);
    assert!(matches!(again, EntryDecision::NoSuchRoom));
}

#[test]
fn enter_live_room_gets_two_tracks() {
    let mut m = RoomMap::new();
    let name = "r".to_string();
    start(name.clone(), broadcaster(1, 2, vec![10, 11]), &mut m);
    match enter_room(&name, true, &mut m) {
        EntryDecision::Admit { first_track, second_track } => {
            assert_eq!(first_track, 10);
            assert_eq!(second_track, 11);
        }
        _ => panic!("expected admission"),
    }
    assert!(m.contains_key(&name));
}

#[test]
fn admit_drops_closed_viewers() {
    let mut m = RoomMap::new();
    let name = "r".to_string();
    start(name.clone(), broadcaster(1, 2, vec![10, 11]), &mut m);
    admit_viewer(&name, viewer(30, 31), &vec![true], &mut m);
    admit_viewer(&name, viewer(40, 41), &vec![true, true], &mut m);
    let dropped = admit_viewer(&name, viewer(50, 51), &vec![false, true, true], &mut m);
    assert_eq!(dropped, vec![viewer(30, 31)]);
    let room = m.get(&name).unwrap();
    assert_eq!(room.room_users, vec![viewer(40, 41), viewer(50, 51)]);
    assert_eq!(room.broadcaster.transmiter, 1);
}

#[test]
fn admit_of_closed_viewer_leaves_it_out() {
    let mut m = RoomMap::new();
    let name = "r".to_string();
    start(name.clone(), broadcaster(1, 2, vec![10, 11]), &mut m);
    let dropped = admit_viewer(&name, viewer(30, 31), &vec![false], &mut m);
    assert_eq!(dropped, vec![viewer(30, 31)]);
    assert!(m.get(&name).unwrap().room_users.is_empty());
}

#[test]
fn retain_open_keeps_order() {
    let users = vec![viewer(1, 1), viewer(2, 2), viewer(3, 3), viewer(4, 4)];
    let (kept, dropped) = retain_open(&users, &vec![true, false, true, false]);
    assert_eq!(kept, vec![viewer(1, 1), viewer(3, 3)]);
    assert_eq!(dropped, vec![viewer(2, 2), viewer(4, 4)]);
    let (all, none_dropped) = retain_open(&users, &vec![true, true, true, true]);
    assert_eq!(all, users);
    assert!(none_dropped.is_empty());
    let (none, all_dropped) = retain_open(&users, &vec![false, false, false, false]);
    assert!(none.is_empty());
    assert_eq!(all_dropped, users);
}

#[test]
fn gathering_stops_at_two_tracks() {
    assert_eq!(TRACKS_PER_BROADCAST, 2);
    let mut tracks: Vec<u64> = Vec::new();
    assert!(wants_track(&tracks));
    assert!(collect_track(&mut tracks, Some(7)));
    assert!(!collect_track(&mut tracks, Some(8)));
    assert_eq!(tracks, vec![7, 8]);
    assert!(!wants_track(&tracks));
}

#[test]
fn gathering_stops_when_channel_closes() {
    let mut tracks: Vec<u64> = Vec::new();
    assert!(collect_track(&mut tracks, Some(7)));
    assert!(!collect_track(&mut tracks, None));
    assert_eq!(tracks, vec![7]);
}

#[test]
fn gathering_from_many_announced_tracks_keeps_two() {
    let mut tracks: Vec<u64> = Vec::new();
    let mut announced = vec![Some(1), Some(2), Some(3), Some(4)].into_iter();
    let mut more = wants_track(&tracks);
    while more {
        more = collect_track(&mut tracks, announced.next().flatten());
    }
    assert_eq!(tracks, vec![1, 2]);
    assert_eq!(announced.next(), Some(Some(3)));
}
