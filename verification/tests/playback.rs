use playback_core::idle_record;
use playback_core::pause;
use playback_core::play_commit;
use playback_core::play_request;
use playback_core::ClientState;
use playback_core::ClientStateMap;
use playback_core::CurrentTrack;
use playback_core::PauseOutcome;
use playback_core::PlayOutcome;
use playback_core::PlayPlan;
use playback_core::PlayStatus;
use playback_core::QueueElement;
use playback_core::SourceType;

fn element(id: &str) -> QueueElement {
    QueueElement {
        title: format!("title-{id}"),
        channel_name: format!("channel-{id}"),
        url: format!("https://youtube.com/watch?v={id}"),
        id: id.to_string(),
    }
}

#[test]
fn scenario_pause_without_record() {
    // pause against a guild with no record: SessionMissing, no record created
    let mut map = ClientStateMap::new();
    let outcome = pause(&mut map, 1);
    assert!(matches!(outcome, PauseOutcome::SessionMissing));
    assert!(!map.contains_key(&1));
}

#[test]
fn scenario_play_single_while_idle() {
    // idle record; play(X) ends with the record playing X and result Playing(X)
    let mut map = ClientStateMap::new();
    assert!(map.insert(&1, idle_record(Some(7))).is_ok());
    let input = SourceType::Single(element("X"));

    let plan = play_request(&mut map, 1, &input);
    let url = match plan {
        PlayPlan::Start { url } => url,
        other => panic!("expected Start, got {other:?}"),
    };
    assert_eq!(url, "https://youtube.com/watch?v=X");
    // nothing committed yet
    assert!(!map.get(&1).unwrap().is_playing);

    let outcome = play_commit(&mut map, 1, &input, 10);
    match outcome {
        PlayOutcome::Committed(PlayStatus::Playing(v)) => assert_eq!(v.id, "X"),
        other => panic!("expected Committed(Playing), got {other:?}"),
    }
    let state = map.get(&1).unwrap();
    assert!(state.is_playing);
    assert_eq!(state.current_channel, Some(7));
    let track = state.current_track.as_ref().unwrap();
    assert_eq!(track.handle, 10);
    assert_eq!(track.source.id, "X");
    assert!(state.song_queue.is_empty());
}

#[test]
fn scenario_play_while_playing_enqueues() {
    // playing record with empty queue; play(Y) appends Y, keeps the current
    // track, and owes no player call
    let mut map = ClientStateMap::new();
    let playing = ClientState {
        is_playing: true,
        current_channel: Some(7),
        current_track: Some(CurrentTrack { handle: 10, source: element("X") }),
        song_queue: vec![],
    };
    assert!(map.insert(&1, playing).is_ok());
    let input = SourceType::Single(element("Y"));

    let plan = play_request(&mut map, 1, &input);
    match plan {
        PlayPlan::Queued(PlayStatus::Queued(SourceType::Single(v))) => assert_eq!(v.id, "Y"),
        other => panic!("expected Queued(Queued(Single)), got {other:?}"),
    }
    let state = map.get(&1).unwrap();
    assert!(state.is_playing);
    assert_eq!(state.current_track.as_ref().unwrap().handle, 10);
    assert_eq!(state.song_queue.len(), 1);
    assert_eq!(state.song_queue[0].id, "Y");
}

#[test]
fn play_without_record_is_session_missing() {
    let mut map = ClientStateMap::new();
    let input = SourceType::Single(element("X"));
    let plan = play_request(&mut map, 1, &input);
    assert!(matches!(plan, PlayPlan::SessionMissing));
    assert!(!map.contains_key(&1));
}

#[test]
fn playlist_starts_first_and_queues_rest() {
    let mut map = ClientStateMap::new();
    assert!(map.insert(&1, idle_record(Some(7))).is_ok());
    let header = element("list-head");
    let input = SourceType::Playlist((header, vec![element("A"), element("B"), element("C")]));

    let plan = play_request(&mut map, 1, &input);
    let url = match plan {
        PlayPlan::Start { url } => url,
        other => panic!("expected Start, got {other:?}"),
    };
    assert_eq!(url, "https://youtube.com/watch?v=A");

    let outcome = play_commit(&mut map, 1, &input, 11);
    match outcome {
        PlayOutcome::Committed(PlayStatus::PlayAndQueued(items)) => assert_eq!(items.len(), 3),
        other => panic!("expected Committed(PlayAndQueued), got {other:?}"),
    }
    let state = map.get(&1).unwrap();
    assert!(state.is_playing);
    assert_eq!(state.current_track.as_ref().unwrap().source.id, "A");
    let queued: Vec<&str> = state.song_queue.iter().map(|e| e.id.as_str()).collect();
    assert_eq!(queued, vec!["B", "C"]);
}

#[test]
fn playlist_enqueues_whole_list_while_playing() {
    let mut map = ClientStateMap::new();
    let playing = ClientState {
        is_playing: true,
        current_channel: Some(7),
        current_track: Some(CurrentTrack { handle: 10, source: element("X") }),
        song_queue: vec![element("Q")],
    };
    assert!(map.insert(&1, playing).is_ok());
    let input = SourceType::Playlist((element("list-head"), vec![element("A"), element("B")]));

    let plan = play_request(&mut map, 1, &input);
    assert!(matches!(plan, PlayPlan::Queued(_)));
    let state = map.get(&1).unwrap();
    let queued: Vec<&str> = state.song_queue.iter().map(|e| e.id.as_str()).collect();
    assert_eq!(queued, vec!["Q", "A", "B"]);
}

#[test]
fn play_commit_conflicts_when_track_started_meanwhile() {
    let mut map = ClientStateMap::new();
    let playing = ClientState {
        is_playing: true,
        current_channel: Some(7),
        current_track: Some(CurrentTrack { handle: 10, source: element("X") }),
        song_queue: vec![],
    };
    assert!(map.insert(&1, playing).is_ok());
    let input = SourceType::Single(element("Y"));
    let outcome = play_commit(&mut map, 1, &input, 11);
    assert!(matches!(outcome, PlayOutcome::Conflict));
    // untouched
    let state = map.get(&1).unwrap();
    assert_eq!(state.current_track.as_ref().unwrap().handle, 10);
    assert!(state.song_queue.is_empty());
}

#[test]
fn play_commit_conflicts_when_record_gone() {
    let mut map = ClientStateMap::new();
    let input = SourceType::Single(element("Y"));
    let outcome = play_commit(&mut map, 1, &input, 11);
    assert!(matches!(outcome, PlayOutcome::Conflict));
    assert!(!map.contains_key(&1));
}
