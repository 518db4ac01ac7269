//! Tests of the pure parts of the library: classification, field
//! resolution, and data-URI assembly.

use music_scan::classify::is_audio_file;
use music_scan::extract::resolve_date;
use music_scan::cover::make_data_uri;
use music_scan::cover::CoverMime;
use music_scan::track::resolve_track;
use music_scan::track::ScanError;
use music_scan::track::TagSnapshot;

fn empty_snapshot(duration_secs: u64) -> TagSnapshot {
    TagSnapshot {
        title: None,
        artist: None,
        album: None,
        year: None,
        track_number: None,
        duration_secs,
    }
}

#[test]
fn audio_extensions_accepted() {
    assert!(is_audio_file("song.mp3"));
    assert!(is_audio_file("song.flac"));
    assert!(is_audio_file("song.wav"));
    assert!(is_audio_file("song.m4a"));
    assert!(is_audio_file("song.ogg"));
    assert!(is_audio_file("song.aac"));
}

#[test]
fn audio_extension_case_insensitive() {
    assert!(is_audio_file("song.MP3"));
    assert!(is_audio_file("/home/user/music/Song.FlAc"));
    assert!(is_audio_file("a/b/c.WAV"));
}

#[test]
fn non_audio_rejected() {
    assert!(!is_audio_file("notes.txt"));
    assert!(!is_audio_file("archive.tar.gz"));
    assert!(!is_audio_file("picture.jpeg"));
    assert!(!is_audio_file("song.mp4"));
}

#[test]
fn pathological_names_rejected() {
    assert!(!is_audio_file("noextension"));
    assert!(!is_audio_file(""));
    assert!(!is_audio_file(".mp3"));
    assert!(!is_audio_file("dir/.mp3"));
    assert!(!is_audio_file("trailingdot."));
    assert!(!is_audio_file("dir.mp3/file"));
}

#[test]
fn extension_found_after_last_dot() {
    assert!(is_audio_file("weird.name.mp3"));
    assert!(!is_audio_file("song.mp3.bak"));
}

#[test]
fn resolution_keeps_tag_fields() {
    let snap = TagSnapshot {
        title: Some("Song".to_string()),
        artist: Some("Band".to_string()),
        album: Some("LP".to_string()),
        year: Some(2001),
        track_number: Some(7),
        duration_secs: 95,
    };
    let t = resolve_track("/music/a.mp3", snap, 1234);
    assert_eq!(t.path, "/music/a.mp3");
    assert_eq!(t.title, "Song");
    assert_eq!(t.artist, "Band");
    assert_eq!(t.album, "LP");
    assert_eq!(t.year, Some(2001));
    assert_eq!(t.track_number, Some(7));
    assert_eq!(t.duration_secs, 95);
    assert_eq!(t.date_added, 1234);
}

#[test]
fn resolution_falls_back_when_untagged() {
    let t = resolve_track("/music/sub/my song.flac", empty_snapshot(12), 0);
    assert_eq!(t.title, "my song");
    assert_eq!(t.artist, "Unknown Artist");
    assert_eq!(t.album, "Unknown Album");
    assert_eq!(t.year, None);
    assert_eq!(t.track_number, None);
    assert_eq!(t.duration_secs, 12);
    assert_eq!(t.date_added, 0);
}

#[test]
fn resolution_treats_empty_tag_strings_as_absent() {
    let snap = TagSnapshot {
        title: Some("".to_string()),
        artist: Some("".to_string()),
        album: Some("".to_string()),
        year: None,
        track_number: None,
        duration_secs: 1,
    };
    let t = resolve_track("/m/empty tags.mp3", snap, 0);
    assert_eq!(t.title, "empty tags");
    assert_eq!(t.artist, "Unknown Artist");
    assert_eq!(t.album, "Unknown Album");
}

#[test]
fn date_fallback_order() {
    assert_eq!(resolve_date(Some(5), Some(9)), 5);
    assert_eq!(resolve_date(Some(5), None), 5);
    assert_eq!(resolve_date(None, Some(9)), 9);
    assert_eq!(resolve_date(None, None), 0);
}

#[test]
fn resolution_stem_without_directory() {
    let t = resolve_track("plain.wav", empty_snapshot(0), 0);
    assert_eq!(t.title, "plain");
}

#[test]
fn data_uri_exact_value() {
    let bytes: Vec<u8> = vec![1, 2, 3];
    let uri = make_data_uri(&bytes, CoverMime::Png);
    assert_eq!(uri, "data:image/png;base64,AQID");
}

#[test]
fn data_uri_empty_payload() {
    let bytes: Vec<u8> = Vec::new();
    let uri = make_data_uri(&bytes, CoverMime::Other);
    assert_eq!(uri, "data:image/jpeg;base64,");
}

#[test]
fn data_uri_mime_labels() {
    let bytes: Vec<u8> = vec![0];
    assert!(make_data_uri(&bytes, CoverMime::Jpeg).starts_with("data:image/jpeg;base64,"));
    assert!(make_data_uri(&bytes, CoverMime::Tiff).starts_with("data:image/tiff;base64,"));
    assert!(make_data_uri(&bytes, CoverMime::Bmp).starts_with("data:image/bmp;base64,"));
    assert!(make_data_uri(&bytes, CoverMime::Gif).starts_with("data:image/gif;base64,"));
    assert!(make_data_uri(&bytes, CoverMime::Other).starts_with("data:image/jpeg;base64,"));
}

#[test]
fn data_uri_padding_length() {
    let bytes: Vec<u8> = vec![1];
    let uri = make_data_uri(&bytes, CoverMime::Png);
    assert_eq!(uri, "data:image/png;base64,AQ==");
}

#[test]
fn scan_error_message() {
    let e = ScanError::RootUnreachable;
    assert_eq!(e.message(), "music folder does not exist or cannot be read");
}
