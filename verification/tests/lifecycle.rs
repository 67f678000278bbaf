use playback_core::count_matching;
use playback_core::establish_session;
use playback_core::handle_disconnect;
use playback_core::handle_occupancy;
use playback_core::handle_reconnect;
use playback_core::idle_record;
use playback_core::ClientState;
use playback_core::ClientStateMap;
use playback_core::CurrentTrack;
use playback_core::OccupancyOutcome;
use playback_core::QueueElement;

fn element(id: &str) -> QueueElement {
    QueueElement {
        title: format!("title-{id}"),
        channel_name: format!("channel-{id}"),
        url: format!("https://youtube.com/watch?v={id}"),
        id: id.to_string(),
    }
}

#[test]
fn establish_creates_an_idle_record() {
    let mut map = ClientStateMap::new();
    assert!(establish_session(&mut map, 1, 7));
    let state = map.get(&1).unwrap();
    assert!(!state.is_playing);
    assert_eq!(state.current_channel, Some(7));
    assert!(state.current_track.is_none());
    assert!(state.song_queue.is_empty());
}

#[test]
fn establish_keeps_an_existing_record() {
    let mut map = ClientStateMap::new();
    assert!(establish_session(&mut map, 1, 7));
    assert!(!establish_session(&mut map, 1, 9));
    assert_eq!(map.get(&1).unwrap().current_channel, Some(7));
}

#[test]
fn disconnect_removes_and_is_idempotent() {
    let mut map = ClientStateMap::new();
    assert!(map.insert(&1, idle_record(Some(7))).is_ok());
    assert!(handle_disconnect(&mut map, 1));
    assert!(!map.contains_key(&1));
    assert!(!handle_disconnect(&mut map, 1));
    assert!(!map.contains_key(&1));
}

#[test]
fn reconnect_repairs_missing_bookkeeping() {
    let mut map = ClientStateMap::new();
    assert!(handle_reconnect(&mut map, 1, Some(9)));
    let state = map.get(&1).unwrap();
    assert!(!state.is_playing);
    assert_eq!(state.current_channel, Some(9));
    assert!(state.song_queue.is_empty());

    // a surviving record is left alone
    assert!(!handle_reconnect(&mut map, 1, Some(11)));
    assert_eq!(map.get(&1).unwrap().current_channel, Some(9));

    // the event may carry no channel
    let mut other = ClientStateMap::new();
    assert!(handle_reconnect(&mut other, 2, None));
    assert_eq!(other.get(&2).unwrap().current_channel, None);
}

#[test]
fn occupancy_tears_down_an_empty_room() {
    let mut map = ClientStateMap::new();
    let record = ClientState {
        is_playing: true,
        current_channel: Some(7),
        current_track: Some(CurrentTrack { handle: 10, source: element("X") }),
        song_queue: vec![],
    };
    assert!(map.insert(&1, record).is_ok());
    // listeners sit in other channels only
    let occupants = vec![5, 6, 6];
    assert_eq!(handle_occupancy(&mut map, 1, &occupants), OccupancyOutcome::Removed);
    assert!(!map.contains_key(&1));
}

#[test]
fn occupancy_keeps_a_populated_room() {
    let mut map = ClientStateMap::new();
    assert!(map.insert(&1, idle_record(Some(7))).is_ok());
    let occupants = vec![5, 7];
    assert_eq!(handle_occupancy(&mut map, 1, &occupants), OccupancyOutcome::Stay);
    assert!(map.contains_key(&1));
}

#[test]
fn occupancy_edge_cases() {
    let mut map = ClientStateMap::new();
    assert_eq!(handle_occupancy(&mut map, 1, &vec![7]), OccupancyOutcome::NoSession);

    assert!(map.insert(&1, idle_record(None)).is_ok());
    assert_eq!(handle_occupancy(&mut map, 1, &vec![]), OccupancyOutcome::Stay);
    assert!(map.contains_key(&1));
}

#[test]
fn count_matching_exact() {
    assert_eq!(count_matching(&vec![], 7), 0);
    assert_eq!(count_matching(&vec![1, 7, 7, 3], 7), 2);
    assert_eq!(count_matching(&vec![1, 2, 3], 7), 0);
}

#[test]
fn occupies_channel_checks_the_room() {
    let state = idle_record(Some(7));
    assert!(state.occupies_channel(7));
    assert!(!state.occupies_channel(8));
    assert!(!idle_record(None).occupies_channel(7));
}
