//! End-to-end tests of scanning and cover extraction on real files: a
//! temporary directory is populated with small synthesized audio files,
//! tagged through lofty, and scanned through the library.

use std::io::Write;

use base64::Engine;
use lofty::config::WriteOptions;
use lofty::picture::MimeType;
use lofty::picture::Picture;
use lofty::picture::PictureType;
use lofty::tag::ItemKey;
use lofty::tag::Tag;
use lofty::tag::TagExt;
use lofty::tag::TagType;

use music_scan::get_track_cover;
use music_scan::scan_music_folder;
use music_scan::Track;

/// A minimal PCM WAV file: 8-bit mono at 8000 Hz, two seconds of silence.
fn wav_bytes() -> Vec<u8> {
    let data_len: u32 = 16000;
    let mut v: Vec<u8> = Vec::new();
    v.extend_from_slice(b"RIFF");
    v.extend_from_slice(&(4 + 24 + 8 + data_len).to_le_bytes());
    v.extend_from_slice(b"WAVE");
    v.extend_from_slice(b"fmt ");
    v.extend_from_slice(&16u32.to_le_bytes());
    v.extend_from_slice(&1u16.to_le_bytes()); // PCM
    v.extend_from_slice(&1u16.to_le_bytes()); // mono
    v.extend_from_slice(&8000u32.to_le_bytes()); // sample rate
    v.extend_from_slice(&8000u32.to_le_bytes()); // byte rate
    v.extend_from_slice(&1u16.to_le_bytes()); // block align
    v.extend_from_slice(&8u16.to_le_bytes()); // bits per sample
    v.extend_from_slice(b"data");
    v.extend_from_slice(&data_len.to_le_bytes());
    v.extend_from_slice(&vec![0u8; data_len as usize]);
    v
}

/// A minimal CBR MP3: fifty identical MPEG-1 Layer III frames at 128 kbps,
/// 44100 Hz, mono; about 1.3 seconds.
fn mp3_bytes() -> Vec<u8> {
    let mut v: Vec<u8> = Vec::new();
    for _ in 0..50 {
        v.extend_from_slice(&[0xFF, 0xFB, 0x90, 0xC0]);
        v.extend_from_slice(&vec![0u8; 413]);
    }
    v
}

/// Creates a file with the exact name `stem` + `suffix` inside `dir`.
fn make_file(
    dir: &std::path::Path,
    stem: &str,
    suffix: &str,
    bytes: &[u8],
) -> tempfile::NamedTempFile {
    let mut f = tempfile::Builder::new()
        .prefix(stem)
        .suffix(suffix)
        .rand_bytes(0)
        .tempfile_in(dir)
        .unwrap();
    f.write_all(bytes).unwrap();
    f.flush().unwrap();
    f
}

fn tag_with(
    path: &std::path::Path,
    title: Option<&str>,
    artist: Option<&str>,
    album: Option<&str>,
    picture: Option<(Vec<u8>, MimeType)>,
) {
    let mut tag = Tag::new(TagType::Id3v2);
    if let Some(t) = title {
        tag.insert_text(ItemKey::TrackTitle, t.to_string());
    }
    if let Some(a) = artist {
        tag.insert_text(ItemKey::TrackArtist, a.to_string());
    }
    if let Some(a) = album {
        tag.insert_text(ItemKey::AlbumTitle, a.to_string());
    }
    if let Some((data, mime)) = picture {
        let pic = Picture::unchecked(data)
            .pic_type(PictureType::CoverFront)
            .mime_type(mime)
            .build();
        tag.push_picture(pic);
    }
    tag.save_to_path(path, WriteOptions::default()).unwrap();
}

fn paths_of(tracks: &[Track]) -> Vec<String> {
    let mut v: Vec<String> = tracks.iter().map(|t| t.path.clone()).collect();
    v.sort();
    v
}

/// A JPEG-looking payload for embedded pictures.
fn jpeg_payload() -> Vec<u8> {
    let mut v = vec![0xFF, 0xD8, 0xFF, 0xE0];
    v.extend_from_slice(b"picture-payload-jpeg");
    v
}

/// A PNG-looking payload for embedded pictures.
fn png_payload() -> Vec<u8> {
    let mut v = vec![0x89u8, 0x50, 0x4E, 0x47, 0x0D, 0x0A, 0x1A, 0x0A];
    v.extend_from_slice(b"picture-payload-png");
    v
}

#[test]
fn scenario_one_tagged_mp3_one_text_file() {
    let dir = tempfile::tempdir().unwrap();
    let a = make_file(dir.path(), "a", ".mp3", &mp3_bytes());
    tag_with(
        a.path(),
        Some("Song"),
        Some("Band"),
        Some("LP"),
        Some((jpeg_payload(), MimeType::Jpeg)),
    );
    let _b = make_file(dir.path(), "b", ".txt", b"plain text, not audio");

    let tracks = scan_music_folder(dir.path().to_str().unwrap(), false).unwrap();
    assert_eq!(tracks.len(), 1);
    let t = &tracks[0];
    assert_eq!(t.path, a.path().to_str().unwrap());
    assert_eq!(t.title, "Song");
    assert_eq!(t.artist, "Band");
    assert_eq!(t.album, "LP");
    assert!(t.duration_secs > 0);

    let cover = get_track_cover(a.path().to_str().unwrap()).unwrap();
    assert!(cover.starts_with("data:image/jpeg;base64,"));
    let txt_path = dir.path().join("b.txt");
    assert_eq!(get_track_cover(txt_path.to_str().unwrap()), None);
}

#[test]
fn sequential_and_parallel_scans_agree() {
    let dir = tempfile::tempdir().unwrap();
    let sub = tempfile::Builder::new()
        .prefix("sub")
        .rand_bytes(0)
        .tempdir_in(dir.path())
        .unwrap();
    let _a = make_file(dir.path(), "a", ".mp3", &mp3_bytes());
    let _b = make_file(sub.path(), "b", ".wav", &wav_bytes());
    let _c = make_file(dir.path(), "c", ".txt", b"not audio");
    let _d = make_file(dir.path(), "d", ".flac", b"corrupt bytes with audio extension");
    let _h = make_file(dir.path(), ".hidden", ".mp3", &mp3_bytes());

    let seq = scan_music_folder(dir.path().to_str().unwrap(), false).unwrap();
    let par = scan_music_folder(dir.path().to_str().unwrap(), true).unwrap();
    assert_eq!(paths_of(&seq), paths_of(&par));
    assert_eq!(seq.len(), 3);
}

#[test]
fn untagged_wav_gets_fallback_fields() {
    let dir = tempfile::tempdir().unwrap();
    let _w = make_file(dir.path(), "plain", ".wav", &wav_bytes());

    let tracks = scan_music_folder(dir.path().to_str().unwrap(), false).unwrap();
    assert_eq!(tracks.len(), 1);
    let t = &tracks[0];
    assert_eq!(t.title, "plain");
    assert_eq!(t.artist, "Unknown Artist");
    assert_eq!(t.album, "Unknown Album");
    assert_eq!(t.year, None);
    assert_eq!(t.track_number, None);
    assert_eq!(t.duration_secs, 2);
}

#[test]
fn corrupt_audio_file_is_omitted_without_error() {
    let dir = tempfile::tempdir().unwrap();
    let _a = make_file(dir.path(), "good1", ".mp3", &mp3_bytes());
    let _b = make_file(dir.path(), "good2", ".wav", &wav_bytes());
    let bad = make_file(dir.path(), "bad", ".mp3", b"this is not an mpeg stream at all");

    let tracks = scan_music_folder(dir.path().to_str().unwrap(), false).unwrap();
    assert_eq!(tracks.len(), 2);
    for t in &tracks {
        assert_ne!(t.path, bad.path().to_str().unwrap());
    }
}

#[test]
fn nonexistent_root_is_an_error() {
    let r = scan_music_folder("/surely/not/an/existing/folder", false);
    assert!(r.is_err());
    let r = scan_music_folder("/surely/not/an/existing/folder", true);
    assert!(r.is_err());
}

#[test]
fn empty_directory_scans_to_empty_list() {
    let dir = tempfile::tempdir().unwrap();
    let tracks = scan_music_folder(dir.path().to_str().unwrap(), false).unwrap();
    assert!(tracks.is_empty());
}

#[test]
fn cover_absent_when_no_picture_embedded() {
    let dir = tempfile::tempdir().unwrap();
    let w = make_file(dir.path(), "nopic", ".wav", &wav_bytes());
    assert_eq!(get_track_cover(w.path().to_str().unwrap()), None);

    let m = make_file(dir.path(), "taggednopic", ".mp3", &mp3_bytes());
    tag_with(m.path(), Some("T"), None, None, None);
    assert_eq!(get_track_cover(m.path().to_str().unwrap()), None);
}

#[test]
fn png_cover_round_trips_exactly() {
    let dir = tempfile::tempdir().unwrap();
    let m = make_file(dir.path(), "withpng", ".mp3", &mp3_bytes());
    let payload = png_payload();
    tag_with(m.path(), None, None, None, Some((payload.clone(), MimeType::Png)));

    let uri = get_track_cover(m.path().to_str().unwrap()).unwrap();
    let prefix = "data:image/png;base64,";
    assert!(uri.starts_with(prefix));
    let decoded = base64::engine::general_purpose::STANDARD
        .decode(&uri[prefix.len()..])
        .unwrap();
    assert_eq!(decoded, payload);
}
