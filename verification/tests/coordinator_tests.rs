use minau::catalog::FileEntry;
use minau::coordinator::Coordinator;
use minau::meta::{MetaData, TagData};
use minau::state::{MonitorStep, PlaybackStatus, PlayerError, PlayerEvent, Session};

fn audio_entry(path: &str, filename: &str) -> FileEntry {
    FileEntry {
        path: path.to_string(),
        filename: filename.to_string(),
        meta: Some(MetaData { tag: None, duration_secs: 10, title: None }),
    }
}

fn two_track_library() -> Coordinator {
    let mut c = Coordinator::new();
    let snap = c.initialize_library(vec![
        audio_entry("/m/a.mp3", "a.mp3"),
        audio_entry("/m/b.flac", "b.flac"),
    ]);
    assert!(snap.is_initialized);
    c
}

#[test]
fn example_scenario_from_the_command_surface() {
    // Catalog = [{id:1, a.mp3}, {id:2, b.flac}]
    let mut c = two_track_library();
    assert_eq!(c.playlist[0].id, 1);
    assert_eq!(c.playlist[1].id, 2);
    c.take_events();

    // play(2) => Playing, index 1, trackChanged{index:1} then stateChanged
    let action = c.play(2).expect("track 2 is present");
    assert_eq!(action.index, 1);
    assert_eq!(action.path, "/m/b.flac");
    assert_eq!(c.status, PlaybackStatus::Playing);
    assert_eq!(c.current_track_index, Some(1));
    let events = c.take_events();
    assert_eq!(events.len(), 2);
    assert!(matches!(events[0], PlayerEvent::TrackChanged { index: 1, track_id: 2 }));
    assert!(matches!(
        events[1],
        PlayerEvent::StateChanged { status: PlaybackStatus::Playing }
    ));

    // pause() => Paused; resume() => Playing
    assert_eq!(c.pause(), Ok(()));
    assert_eq!(c.status, PlaybackStatus::Paused);
    assert_eq!(c.resume(), Ok(()));
    assert_eq!(c.status, PlaybackStatus::Playing);
    assert_eq!(c.current_track_index, Some(1));

    // play(99) => TrackNotFound, state unchanged
    let events_before = c.take_events().len();
    assert_eq!(c.play(99).unwrap_err(), PlayerError::TrackNotFound);
    assert_eq!(c.status, PlaybackStatus::Playing);
    assert_eq!(c.current_track_index, Some(1));
    assert_eq!(c.take_events().len(), 0);
    let _ = events_before;
}

#[test]
fn initialize_emits_nothing_and_an_empty_catalog_plays_nothing() {
    let mut c = Coordinator::new();
    let snap = c.initialize_library(vec![]);
    assert!(c.take_events().is_empty());
    assert!(snap.playlist.is_empty());
    assert_eq!(snap.status, PlaybackStatus::Stopped);
    assert!(snap.is_initialized);
    assert_eq!(c.play(1).unwrap_err(), PlayerError::TrackNotFound);
    assert_eq!(c.status, PlaybackStatus::Stopped);
}

#[test]
fn track_ids_are_never_reused_across_rescans() {
    let mut c = two_track_library();
    assert_eq!(c.playlist.iter().map(|t| t.id).collect::<Vec<_>>(), vec![1, 2]);
    c.rescan_library(vec![
        audio_entry("/m/a.mp3", "a.mp3"),
        audio_entry("/m/b.flac", "b.flac"),
    ]);
    assert_eq!(c.playlist.iter().map(|t| t.id).collect::<Vec<_>>(), vec![3, 4]);
    c.rescan_library(vec![audio_entry("/m/c.ogg", "c.ogg")]);
    assert_eq!(c.playlist.iter().map(|t| t.id).collect::<Vec<_>>(), vec![5]);
}

#[test]
fn rescan_resets_status_and_index_but_not_the_session() {
    let mut c = two_track_library();
    c.play(1).expect("present");
    assert_eq!(c.status, PlaybackStatus::Playing);
    c.take_events();

    let snap = c.rescan_library(vec![audio_entry("/m/a.mp3", "a.mp3")]);
    assert_eq!(c.status, PlaybackStatus::Stopped);
    assert_eq!(c.current_track_index, None);
    assert!(c.session.is_some(), "a sounding session is not stopped by a rescan");
    assert_eq!(snap.status, PlaybackStatus::Stopped);
    assert_eq!(snap.current_track_index, None);
    let events = c.take_events();
    assert_eq!(events.len(), 1);
    assert!(matches!(events[0], PlayerEvent::PlaylistUpdated));
}

#[test]
fn transport_commands_without_a_session_fail_and_change_nothing() {
    let mut c = two_track_library();
    c.take_events();
    assert_eq!(c.pause(), Err(PlayerError::NoActivePlayback));
    assert_eq!(c.resume(), Err(PlayerError::NoActivePlayback));
    assert_eq!(c.seek(10), Err(PlayerError::NoActivePlayback));
    assert_eq!(c.set_volume(50), Err(PlayerError::NoActivePlayback));
    assert_eq!(c.status, PlaybackStatus::Stopped);
    assert_eq!(c.current_track_index, None);
    assert_eq!(c.take_events().len(), 0);
}

#[test]
fn seek_and_volume_reach_the_session_and_the_snapshot() {
    let mut c = two_track_library();
    c.play(1).expect("present");
    let snap = c.snapshot();
    assert_eq!(snap.volume_percent, 80); // default volume of a new session
    assert_eq!(snap.current_position_secs, 0);

    assert_eq!(c.seek(42), Ok(()));
    assert_eq!(c.set_volume(55), Ok(()));
    let snap = c.snapshot();
    assert_eq!(snap.current_position_secs, 42);
    assert_eq!(snap.volume_percent, 55);
    assert_eq!(snap.status, PlaybackStatus::Playing);
}

#[test]
fn snapshot_without_a_session_reads_idle_values() {
    let c = Coordinator::new();
    let snap = c.snapshot();
    assert_eq!(snap.status, PlaybackStatus::Stopped);
    assert_eq!(snap.current_position_secs, 0);
    assert_eq!(snap.volume_percent, 100);
    assert!(!snap.is_initialized);
    assert!(snap.playlist.is_empty());
}

#[test]
fn monitor_reports_holds_and_stops() {
    let mut c = two_track_library();
    c.play(1).expect("present");
    let generation = c.session_generation;

    assert_eq!(c.monitor_tick(generation), MonitorStep::Report);

    c.pause().unwrap();
    assert_eq!(c.monitor_tick(generation), MonitorStep::Hold);

    c.resume().unwrap();
    assert_eq!(c.monitor_tick(generation), MonitorStep::Report);

    c.mark_drained();
    assert_eq!(c.monitor_tick(generation), MonitorStep::Stop);
}

#[test]
fn a_stale_monitor_stops_once_the_session_is_replaced() {
    let mut c = two_track_library();
    c.play(1).expect("present");
    let old_generation = c.session_generation;
    c.play(2).expect("present");
    assert_eq!(c.monitor_tick(old_generation), MonitorStep::Stop);
    assert_eq!(c.monitor_tick(c.session_generation), MonitorStep::Report);
}

#[test]
fn monitor_stops_when_no_session_exists() {
    let c = Coordinator::new();
    assert_eq!(c.monitor_tick(0), MonitorStep::Stop);
}

#[test]
fn report_progress_emits_the_sampled_position() {
    let mut c = two_track_library();
    c.play(1).expect("present");
    c.take_events();
    c.report_progress(7);
    let events = c.take_events();
    assert_eq!(events.len(), 1);
    assert!(matches!(events[0], PlayerEvent::Progress { position_secs: 7 }));
    assert_eq!(c.snapshot().current_position_secs, 7);
}

#[test]
fn play_url_rejects_bad_urls_before_anything_starts() {
    let mut c = Coordinator::new();
    assert_eq!(c.play_url("ftp://host/x"), Err(PlayerError::UnsupportedScheme));
    assert_eq!(c.play_url("file:///tmp/x.mp3"), Err(PlayerError::UnsupportedScheme));
    assert_eq!(c.play_url("not a url at all"), Err(PlayerError::InvalidUrl));
    assert_eq!(c.status, PlaybackStatus::Stopped);
    assert!(c.session.is_none());
    assert_eq!(c.take_events().len(), 0);
}

#[test]
fn play_url_accepts_http_and_https_case_insensitively() {
    let mut c = Coordinator::new();
    assert_eq!(c.play_url("https://example.net/stream"), Ok(()));
    assert_eq!(c.status, PlaybackStatus::Playing);
    assert!(c.session.is_some());
    let events = c.take_events();
    assert_eq!(events.len(), 1);
    assert!(matches!(
        events[0],
        PlayerEvent::StateChanged { status: PlaybackStatus::Playing }
    ));
    // the parsed scheme comes back lower-cased
    assert_eq!(c.play_url("HTTP://example.net/stream"), Ok(()));
}

#[test]
fn stream_end_and_failure_release_the_session() {
    let mut c = Coordinator::new();
    c.play_url("http://example.net/a").unwrap();
    c.take_events();
    c.stream_ended();
    assert_eq!(c.status, PlaybackStatus::Stopped);
    assert!(c.session.is_none());
    let events = c.take_events();
    assert!(matches!(
        events[0],
        PlayerEvent::StateChanged { status: PlaybackStatus::Stopped }
    ));

    c.play_url("http://example.net/b").unwrap();
    c.take_events();
    c.playback_failed("decoder gave up".to_string());
    assert!(c.session.is_none());
    assert_eq!(c.status, PlaybackStatus::Stopped);
    let events = c.take_events();
    assert_eq!(events.len(), 1);
    match &events[0] {
        PlayerEvent::PlaybackError { message } => assert_eq!(message, "decoder gave up"),
        other => panic!("unexpected event {other:?}"),
    }
}

#[test]
fn get_album_art_resolves_only_present_ids() {
    let mut c = two_track_library();
    assert_eq!(c.get_album_art(1).as_deref(), Some("/m/a.mp3"));
    assert_eq!(c.get_album_art(2).as_deref(), Some("/m/b.flac"));
    assert_eq!(c.get_album_art(99), None);
    // repeated calls answer the same for an unchanged catalog
    assert_eq!(c.get_album_art(1), c.get_album_art(1));
    // and playback state is untouched
    assert_eq!(c.status, PlaybackStatus::Stopped);
    let _ = c.take_events();
}

#[test]
fn device_failure_after_play_is_an_event_not_a_crash() {
    let mut c = two_track_library();
    c.play(1).expect("present");
    c.take_events();
    c.playback_failed("failed to open audio device".to_string());
    assert!(c.session.is_none());
    assert_eq!(c.status, PlaybackStatus::Stopped);
    let events = c.take_events();
    assert!(matches!(events[0], PlayerEvent::PlaybackError { .. }));
}

#[test]
fn session_transport_operations() {
    let mut s = Session::fresh(80);
    assert!(!s.is_paused());
    assert!(!s.is_empty());
    assert_eq!(s.get_volume(), 80);
    assert_eq!(s.get_pos(), 0);
    s.pause();
    assert!(s.is_paused());
    s.resume();
    assert!(!s.is_paused());
    s.seek(30);
    assert_eq!(s.get_pos(), 30);
    s.set_volume_mut(40);
    assert_eq!(s.get_volume(), 40);
    let louder = s.set_volume(70);
    assert_eq!(louder.get_volume(), 70);
    assert_eq!(louder.get_pos(), 30);
}

#[test]
fn take_events_hands_everything_over_once() {
    let mut c = two_track_library();
    c.play(1).expect("present");
    c.pause().unwrap();
    let events = c.take_events();
    assert_eq!(events.len(), 3);
    assert!(c.take_events().is_empty());
}
