//! Metadata Extractor: probes one audio file through lofty, takes a snapshot
//! of its tag fields and stream duration, and resolves the snapshot into a
//! Track. Probing failures yield nothing; they never surface as errors.

use vstd::prelude::*;
use lofty::file::TaggedFileExt;
use lofty::file::AudioFile;
use lofty::tag::Accessor;
use crate::classify::is_audio_path;
use crate::track::full_record;
use crate::track::Track;
use crate::track::TagSnapshot;
use crate::track::resolve_track;
use crate::track::resolves_to;

verus! {

/// Relies on std::path::Path::metadata, fs::Metadata::created and
/// SystemTime::duration_since: the file's creation time as whole seconds
/// since the Unix epoch, where the platform and the epoch ordering make one
/// available. The result depends on the filesystem, so nothing is promised
/// of it.
#[verifier::external_body]
fn file_created_secs(path: &str) -> Option<u64> {
    std::path::Path::new(path)
        .metadata()
        .ok()
        .and_then(|m| m.created().ok())
        .and_then(|t| t.duration_since(std::time::SystemTime::UNIX_EPOCH).ok())
        .map(|d| d.as_secs())
}

/// Relies on std::path::Path::metadata, fs::Metadata::modified and
/// SystemTime::duration_since: the file's modification time as whole seconds
/// since the Unix epoch, where available. The result depends on the
/// filesystem, so nothing is promised of it.
#[verifier::external_body]
fn file_modified_secs(path: &str) -> Option<u64> {
    std::path::Path::new(path)
        .metadata()
        .ok()
        .and_then(|m| m.modified().ok())
        .and_then(|t| t.duration_since(std::time::SystemTime::UNIX_EPOCH).ok())
        .map(|d| d.as_secs())
}

/// Relies on lofty: Probe::open and Probe::read to identify and decode the
/// container, TaggedFileExt::primary_tag falling back to first_tag to select
/// the tag container, the Accessor getters for the tag fields, and
/// AudioFile::properties for the decoded duration. Returns nothing whenever
/// probing or decoding fails. The result depends on what is on disk, so
/// nothing is promised of it.
#[verifier::external_body]
fn probe_tags(path: &str) -> Option<TagSnapshot> {
    let tf = lofty::probe::Probe::open(path).ok()?.read().ok()?;
    let tag = tf.primary_tag().or_else(|| tf.first_tag());
    Some(TagSnapshot {
        title: tag.and_then(|t| t.title().map(|s| s.to_string())),
        artist: tag.and_then(|t| t.artist().map(|s| s.to_string())),
        album: tag.and_then(|t| t.album().map(|s| s.to_string())),
        year: tag.and_then(|t| t.date()).map(|d| d.year as u32),
        track_number: tag.and_then(|t| t.track()),
        duration_secs: tf.properties().duration().as_secs(),
    })
}

/// The best-effort date a file was added: the creation time when one is
/// available, else the modification time, else zero. Never fails, whatever
/// the filesystem reported.
pub fn resolve_date(created: Option<u64>, modified: Option<u64>) -> (r: u64)
    ensures
        r == (match created {
            Some(s) => s,
            None => match modified {
                Some(s) => s,
                None => 0u64,
            },
        }),
{
    match created {
        Some(s) => s,
        None => match modified {
            Some(s) => s,
            None => 0,
        },
    }
}

/// Metadata Extractor: probes `path` and returns its resolved Track, or
/// nothing when the file cannot be probed or decoded. Every track returned
/// is resolved from some snapshot by the fallback rules; in particular its
/// `path` field is the path that was asked about, and on a path the
/// classifier accepts the record is fully populated.
pub fn extract_track(path: &str) -> (r: Option<Track>)
    ensures
        r matches Some(t) ==> exists|snap: TagSnapshot, date: u64|
            resolves_to(path@, snap, date, t),
        r matches Some(t) ==> (is_audio_path(path@) ==> full_record(t)),
{
    let date = resolve_date(file_created_secs(path), file_modified_secs(path));
    match probe_tags(path) {
        Some(snap) => {
            let ghost snap0 = snap;
            let t = resolve_track(path, snap, date);
            proof {
                assert(resolves_to(path@, snap0, date, t));
                if is_audio_path(path@) {
                    crate::track::lemma_resolved_record_full(path@, snap0, date, t);
                }
            }
            Some(t)
        },
        None => None,
    }
}

} // verus!
