//! The Track record, the snapshot of tag and stream data read from a file,
//! and the fallback rules that resolve the snapshot into a Track.

use vstd::prelude::*;
use crate::path_model::stem_of;
use crate::path_model::stem_string;

verus! {

/// One catalogued audio track. Immutable once constructed; a value record
/// owned by the caller of a scan.
#[derive(Debug)]
pub struct Track {
    /// The path of the file the track was read from; unique within one scan
    /// result.
    pub path: String,
    /// Tag title, or the file-name stem when the tags carry no title.
    pub title: String,
    /// Tag artist, or a fixed placeholder when the tags carry none.
    pub artist: String,
    /// Tag album, or a fixed placeholder when the tags carry none.
    pub album: String,
    /// Whole seconds of decoded stream duration; never read from tags.
    pub duration_secs: u64,
    /// Seconds since the Unix epoch of the file's creation time, falling
    /// back to its modification time, falling back to zero.
    pub date_added: u64,
    /// Tag year, only when the tag store provides one.
    pub year: Option<u32>,
    /// Tag track number, only when the tag store provides one.
    pub track_number: Option<u32>,
}

impl Clone for Track {
    fn clone(&self) -> (res: Self)
        ensures
            res == *self,
    {
        Track {
            path: self.path.clone(),
            title: self.title.clone(),
            artist: self.artist.clone(),
            album: self.album.clone(),
            duration_secs: self.duration_secs,
            date_added: self.date_added,
            year: self.year,
            track_number: self.track_number,
        }
    }
}

/// What one probe of an audio file yields: the optional tag fields of the
/// selected tag container, and the decoded stream duration.
#[derive(Clone, Debug)]
pub struct TagSnapshot {
    pub title: Option<String>,
    pub artist: Option<String>,
    pub album: Option<String>,
    pub year: Option<u32>,
    pub track_number: Option<u32>,
    pub duration_secs: u64,
}

/// A scan-level failure: the root of the scan could not be read at all.
/// Failures of single files never surface here.
#[derive(Clone, Copy, Debug, PartialEq, Eq, Structural)]
pub enum ScanError {
    RootUnreachable,
}

impl ScanError {
    /// A human-readable description of the failure.
    pub fn message(&self) -> (r: String)
        ensures
            r@ == "music folder does not exist or cannot be read"@,
    {
        String::from_str("music folder does not exist or cannot be read")
    }
}

/// The fallback rules of field resolution: `t` is the track that a snapshot
/// `snap` read from `path` resolves to, with `date_added` taken as given.
/// Title falls back to the file-name stem, artist and album to fixed
/// placeholders; a tag field holding an empty string counts as absent, so
/// the three text fields are never empty on a path that has an extension.
/// Year and track number stay absent when the tags carry none.
pub open spec fn resolves_to(path: Seq<char>, snap: TagSnapshot, date_added: u64, t: Track) -> bool {
    &&& t.path@ == path
    &&& t.title@ == (match snap.title {
        Some(s) => if s@.len() > 0 {
            s@
        } else {
            stem_of(path)
        },
        None => stem_of(path),
    })
    &&& t.artist@ == (match snap.artist {
        Some(s) => if s@.len() > 0 {
            s@
        } else {
            "Unknown Artist"@
        },
        None => "Unknown Artist"@,
    })
    &&& t.album@ == (match snap.album {
        Some(s) => if s@.len() > 0 {
            s@
        } else {
            "Unknown Album"@
        },
        None => "Unknown Album"@,
    })
    &&& t.year == snap.year
    &&& t.track_number == snap.track_number
    &&& t.duration_secs == snap.duration_secs
    &&& t.date_added == date_added
}

/// A Track whose three text fields are all non-empty, as the data model
/// asks of every emitted record.
pub open spec fn full_record(t: Track) -> bool {
    &&& t.title@.len() > 0
    &&& t.artist@.len() > 0
    &&& t.album@.len() > 0
}

/// Law: resolution never yields a partially-populated record — on any path
/// that has an extension, the resolved title, artist and album are all
/// non-empty, whether they came from the tags or from a fallback.
pub proof fn lemma_resolved_record_full(path: Seq<char>, snap: TagSnapshot, date_added: u64, t: Track)
    requires
        resolves_to(path, snap, date_added, t),
        crate::path_model::extension_of(path) is Some,
    ensures
        full_record(t),
{
    reveal_strlit("Unknown Artist");
    reveal_strlit("Unknown Album");
    crate::path_model::lemma_stem_nonempty(path);
}

/// Law: a file with no tag data at all still resolves to a full record —
/// the title is the file-name stem, artist and album are the fixed
/// placeholders, and year and track number stay absent.
pub proof fn lemma_untagged_resolution(path: Seq<char>, snap: TagSnapshot, date_added: u64, t: Track)
    requires
        resolves_to(path, snap, date_added, t),
        snap.title is None,
        snap.artist is None,
        snap.album is None,
        snap.year is None,
        snap.track_number is None,
    ensures
        t.title@ == stem_of(path),
        t.artist@ == "Unknown Artist"@,
        t.album@ == "Unknown Album"@,
        t.year is None,
        t.track_number is None,
        t.duration_secs == snap.duration_secs,
        t.date_added == date_added,
{
}

/// Resolves a tag snapshot into a full Track, applying each field's
/// fallback rule.
pub fn resolve_track(path: &str, snap: TagSnapshot, date_added: u64) -> (t: Track)
    ensures
        resolves_to(path@, snap, date_added, t),
{
    let title = match snap.title {
        Some(s) => if s.as_str().is_empty() {
            stem_string(path)
        } else {
            s
        },
        None => stem_string(path),
    };
    let artist = match snap.artist {
        Some(s) => if s.as_str().is_empty() {
            String::from_str("Unknown Artist")
        } else {
            s
        },
        None => String::from_str("Unknown Artist"),
    };
    let album = match snap.album {
        Some(s) => if s.as_str().is_empty() {
            String::from_str("Unknown Album")
        } else {
            s
        },
        None => String::from_str("Unknown Album"),
    };
    Track {
        path: path.to_owned(),
        title,
        artist,
        album,
        duration_secs: snap.duration_secs,
        date_added,
        year: snap.year,
        track_number: snap.track_number,
    }
}

} // verus!
