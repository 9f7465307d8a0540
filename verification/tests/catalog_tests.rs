use minau::catalog::{FileEntry, Track, collect_tracks, find_track, has_audio_extension, is_allowed_extension};
use minau::meta::{MetaData, TagData};

fn entry(path: &str, filename: &str, meta: Option<MetaData>) -> FileEntry {
    FileEntry { path: path.to_string(), filename: filename.to_string(), meta }
}

fn meta_with(title: Option<&str>, artist: Option<&str>, album: Option<&str>, secs: u64) -> MetaData {
    MetaData {
        tag: Some(TagData {
            title: title.map(|s| s.to_string()),
            artist: artist.map(|s| s.to_string()),
            album: album.map(|s| s.to_string()),
            picture: None,
        }),
        duration_secs: secs,
        title: None,
    }
}

#[test]
fn extension_filter_accepts_the_allowed_set() {
    for name in [
        "a.mp3", "a.wav", "a.flac", "a.ogg", "a.m4a", "a.aac", "a.opus", "a.wma",
    ] {
        assert!(has_audio_extension(name), "{name} should be accepted");
    }
}

#[test]
fn extension_filter_is_case_insensitive() {
    assert!(has_audio_extension("SONG.MP3"));
    assert!(has_audio_extension("song.Flac"));
    assert!(has_audio_extension("x.OpUs"));
    assert!(is_allowed_extension("WMA"));
    assert!(is_allowed_extension("m4A"));
}

#[test]
fn extension_filter_rejects_everything_else() {
    assert!(!has_audio_extension("notes.txt"));
    assert!(!has_audio_extension("noextension"));
    assert!(!has_audio_extension(".flac")); // leading dot only: no extension
    assert!(!has_audio_extension("archive.tar.gz")); // last extension counts
    assert!(!has_audio_extension("trailing."));
    assert!(!has_audio_extension("song.mp3.bak"));
    assert!(!has_audio_extension(""));
    assert!(!is_allowed_extension("mp4"));
    assert!(!is_allowed_extension(""));
}

#[test]
fn scan_keeps_audio_files_and_numbers_them_from_the_counter() {
    let entries = vec![
        entry("/m/one.mp3", "one.mp3", Some(meta_with(Some("One"), Some("A"), Some("L"), 61))),
        entry("/m/skip.txt", "skip.txt", Some(meta_with(None, None, None, 5))),
        entry("/m/broken.wav", "broken.wav", None), // metadata read failed: skipped
        entry("/m/Two.FLAC", "Two.FLAC", Some(meta_with(None, Some("B"), None, 120))),
    ];
    let (tracks, counter) = collect_tracks(&entries, 1);
    assert_eq!(tracks.len(), 2);
    assert_eq!(counter, 3);

    assert_eq!(tracks[0].id, 1);
    assert_eq!(tracks[0].path, "/m/one.mp3");
    assert_eq!(tracks[0].filename, "one.mp3");
    assert_eq!(tracks[0].title.as_deref(), Some("One"));
    assert_eq!(tracks[0].artist.as_deref(), Some("A"));
    assert_eq!(tracks[0].album.as_deref(), Some("L"));
    assert_eq!(tracks[0].duration_secs, 61);

    assert_eq!(tracks[1].id, 2);
    assert_eq!(tracks[1].filename, "Two.FLAC");
    assert_eq!(tracks[1].title, None);
    assert_eq!(tracks[1].artist.as_deref(), Some("B"));
}

#[test]
fn scan_continues_the_counter_where_it_stood() {
    let entries = vec![
        entry("/m/a.ogg", "a.ogg", Some(meta_with(None, None, None, 1))),
        entry("/m/b.aac", "b.aac", Some(meta_with(None, None, None, 2))),
    ];
    let (tracks, counter) = collect_tracks(&entries, 7);
    assert_eq!(tracks[0].id, 7);
    assert_eq!(tracks[1].id, 8);
    assert_eq!(counter, 9);
}

#[test]
fn scan_uses_the_title_override_when_one_is_set() {
    let mut m = meta_with(Some("Tagged"), None, None, 9);
    m.title = Some("Overridden".to_string());
    let entries = vec![entry("/m/t.mp3", "t.mp3", Some(m))];
    let (tracks, _) = collect_tracks(&entries, 1);
    assert_eq!(tracks[0].title.as_deref(), Some("Overridden"));
}

#[test]
fn find_track_returns_the_first_position_with_the_id() {
    let entries = vec![
        entry("/m/a.mp3", "a.mp3", Some(meta_with(None, None, None, 1))),
        entry("/m/b.mp3", "b.mp3", Some(meta_with(None, None, None, 2))),
    ];
    let (tracks, _) = collect_tracks(&entries, 1);
    assert_eq!(find_track(&tracks, 1), Some(0));
    assert_eq!(find_track(&tracks, 2), Some(1));
    assert_eq!(find_track(&tracks, 3), None);
    assert_eq!(find_track(&Vec::<Track>::new(), 1), None);
}

#[test]
fn track_clone_copies_every_field() {
    let entries = vec![entry("/m/a.mp3", "a.mp3", Some(meta_with(Some("T"), None, None, 3)))];
    let (tracks, _) = collect_tracks(&entries, 4);
    let c = tracks[0].clone();
    assert_eq!(c.id, tracks[0].id);
    assert_eq!(c.path, tracks[0].path);
    assert_eq!(c.filename, tracks[0].filename);
    assert_eq!(c.title, tracks[0].title);
    assert_eq!(c.duration_secs, tracks[0].duration_secs);
}
