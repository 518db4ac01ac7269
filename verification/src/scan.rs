//! Path Collector and Scan Orchestrator: enumerate the regular files under a
//! root by a sequential or a parallel traversal, keep the audio files, and
//! extract a Track from each that can be decoded. Every track of a scan
//! result passed the Audio Classifier, and no two share a path.

use vstd::prelude::*;
use rayon::iter::IntoParallelRefIterator;
use rayon::iter::ParallelIterator;
use crate::classify::is_audio_path;
use crate::classify::is_audio_file;
use crate::extract::extract_track;
use crate::track::full_record;
use crate::track::Track;
use crate::track::ScanError;

verus! {

/// One traversal entry: the entry's path where it is valid UTF-8, and
/// whether the entry is a regular file.
pub type WalkEntry = (Option<String>, bool);

/// Entries whose UTF-8 paths are pairwise distinct, as a traversal of a
/// directory tree yields them.
pub open spec fn distinct_entry_paths(entries: Seq<WalkEntry>) -> bool {
    forall|i: int, j: int|
        0 <= i < j < entries.len() ==> (match ((#[trigger] entries[i]).0, (#[trigger] entries[j]).0) {
            (Some(p), Some(q)) => p@ != q@,
            _ => true,
        })
}

/// Strings with pairwise distinct contents.
pub open spec fn distinct_views(ps: Seq<String>) -> bool {
    forall|i: int, j: int| 0 <= i < j < ps.len() ==> ps[i]@ != ps[j]@
}

/// Relies on walkdir::WalkDir: a sequential recursive traversal that yields
/// every entry beneath the root exactly once, each path at most once, and
/// that reports unreadable entries as errors, which are skipped here. An
/// entry whose path is not valid UTF-8 is yielded with no path and is later
/// dropped by the filter: such a path could not be probed by name anyway,
/// and a lossy stand-in could collide with another path. The set of entries
/// depends on the filesystem, so only the distinctness of the yielded paths
/// is promised.
#[verifier::external_body]
fn walk_files_sequential(root: &str) -> (r: Vec<WalkEntry>)
    ensures
        distinct_entry_paths(r@),
{
    walkdir::WalkDir::new(root)
        .into_iter()
        .filter_map(|e| e.ok())
        .map(|e| (e.path().to_str().map(|s| s.to_string()), e.file_type().is_file()))
        .collect()
}

/// Relies on jwalk::WalkDir: a traversal that fans directories out across a
/// thread pool and yields every entry beneath the root exactly once, each
/// path at most once; unreadable entries are reported as errors and skipped
/// here. Hidden files are kept, as the sequential traversal keeps them, and
/// an entry whose path is not valid UTF-8 is yielded with no path, exactly
/// as in the sequential traversal. The set of entries depends on the
/// filesystem, so only the distinctness of the yielded paths is promised.
#[verifier::external_body]
fn walk_files_parallel(root: &str) -> (r: Vec<WalkEntry>)
    ensures
        distinct_entry_paths(r@),
{
    jwalk::WalkDir::new(root)
        .skip_hidden(false)
        .into_iter()
        .filter_map(|e| e.ok())
        .map(|e| (e.path().to_str().map(|s| s.to_string()), e.file_type().is_file()))
        .collect()
}

/// Relies on std::path::Path::is_dir: whether the path exists, can be
/// queried, and names a directory. The result depends on the filesystem, so
/// nothing is promised of it.
#[verifier::external_body]
fn root_is_dir(path: &str) -> bool {
    std::path::Path::new(path).is_dir()
}

/// The audio files among the traversal entries: the paths of the regular
/// files that the Audio Classifier accepts, in traversal order.
pub open spec fn audio_paths(entries: Seq<WalkEntry>) -> Seq<String>
    decreases entries.len(),
{
    if entries.len() == 0 {
        Seq::empty()
    } else {
        let rest = audio_paths(entries.drop_last());
        match entries.last() {
            (Some(p), is_file) => if is_file && is_audio_path(p@) {
                rest.push(p)
            } else {
                rest
            },
            (None, _) => rest,
        }
    }
}

/// Every audio path passed the classifier and came from some entry.
pub proof fn lemma_audio_paths_from_entries(entries: Seq<WalkEntry>)
    ensures
        forall|i: int|
            0 <= i < audio_paths(entries).len() ==> is_audio_path(
                (#[trigger] audio_paths(entries)[i])@,
            ) && exists|j: int|
                0 <= j < entries.len() && entries[j].0 == Some(audio_paths(entries)[i]),
    decreases entries.len(),
{
    if entries.len() > 0 {
        lemma_audio_paths_from_entries(entries.drop_last());
        let rest = audio_paths(entries.drop_last());
        assert(forall|j: int|
            0 <= j < entries.len() - 1 ==> entries.drop_last()[j] == entries[j]);
        assert forall|i: int| 0 <= i < audio_paths(entries).len() implies is_audio_path(
            (#[trigger] audio_paths(entries)[i])@,
        ) && exists|j: int|
            0 <= j < entries.len() && entries[j].0 == Some(audio_paths(entries)[i]) by {
            if i < rest.len() {
                let j = choose|j: int|
                    0 <= j < entries.len() - 1 && entries.drop_last()[j].0 == Some(rest[i]);
                assert(entries[j].0 == Some(audio_paths(entries)[i]));
            } else {
                assert(entries[entries.len() - 1].0 == Some(audio_paths(entries)[i]));
            }
        }
    }
}

/// When a traversal yields each path at most once, the audio paths drawn
/// from it are pairwise distinct.
pub proof fn lemma_audio_paths_distinct(entries: Seq<WalkEntry>)
    requires
        distinct_entry_paths(entries),
    ensures
        distinct_views(audio_paths(entries)),
    decreases entries.len(),
{
    if entries.len() > 0 {
        assert(forall|j: int|
            0 <= j < entries.len() - 1 ==> entries.drop_last()[j] == entries[j]);
        lemma_audio_paths_distinct(entries.drop_last());
        lemma_audio_paths_from_entries(entries.drop_last());
        let rest = audio_paths(entries.drop_last());
        let full = audio_paths(entries);
        if full.len() == rest.len() + 1 {
            assert forall|i1: int, i2: int| 0 <= i1 < i2 < full.len() implies full[i1]@
                != full[i2]@ by {
                if i2 == full.len() - 1 {
                    let j = choose|j: int|
                        0 <= j < entries.len() - 1 && entries.drop_last()[j].0 == Some(rest[i1]);
                    assert(entries[j].0 == Some(full[i1]));
                    assert(entries[entries.len() - 1].0 == Some(full[i2]));
                }
            }
        }
    }
}

/// Path Collector filtering stage: keeps exactly the regular files the
/// Audio Classifier accepts, in order.
pub fn filter_audio(entries: &Vec<WalkEntry>) -> (r: Vec<String>)
    ensures
        r@ == audio_paths(entries@),
{
    let mut out: Vec<String> = Vec::new();
    let mut k: usize = 0;
    proof {
        assert(entries@.take(0) =~= Seq::<WalkEntry>::empty());
    }
    while k < entries.len()
        invariant
            k <= entries@.len(),
            out@ == audio_paths(entries@.take(k as int)),
        decreases entries@.len() - k,
    {
        proof {
            assert(entries@.take(k + 1).drop_last() =~= entries@.take(k as int));
            assert(entries@.take(k + 1).last() == entries@[k as int]);
        }
        match &entries[k].0 {
            Some(p) => {
                if entries[k].1 && is_audio_file(p.as_str()) {
                    out.push(p.clone());
                }
            },
            None => {},
        }
        k += 1;
    }
    proof {
        assert(entries@.take(entries@.len() as int) =~= entries@);
    }
    out
}

/// Runs the Metadata Extractor over each path in turn, one optional result
/// per path; a result's track carries the path it was extracted from.
pub fn extract_tracks_sequential(paths: &Vec<String>) -> (r: Vec<Option<Track>>)
    ensures
        r@.len() == paths@.len(),
        forall|i: int|
            0 <= i < r@.len() ==> (#[trigger] r@[i] matches Some(t) ==> t.path@ == paths@[i]@
                && (is_audio_path(paths@[i]@) ==> full_record(t))),
{
    let mut out: Vec<Option<Track>> = Vec::new();
    let mut k: usize = 0;
    while k < paths.len()
        invariant
            k <= paths@.len(),
            out@.len() == k,
            forall|i: int|
                0 <= i < k ==> (#[trigger] out@[i] matches Some(t) ==> t.path@ == paths@[i]@
                    && (is_audio_path(paths@[i]@) ==> full_record(t))),
        decreases paths@.len() - k,
    {
        out.push(extract_track(paths[k].as_str()));
        k += 1;
    }
    out
}

/// Relies on rayon: `par_iter` over a Vec is an indexed parallel iterator,
/// and `map` followed by `collect` into a Vec keeps every element at the
/// index of the path it came from. Each element is what `extract_track`
/// returned for that path, and both per-element claims below are that
/// function's own contract: a returned track carries the path it was
/// extracted from, and on a classifier-accepted path it is a full record.
/// The extractions share no state.
#[verifier::external_body]
fn extract_tracks_parallel(paths: &Vec<String>) -> (r: Vec<Option<Track>>)
    ensures
        r@.len() == paths@.len(),
        forall|i: int|
            0 <= i < r@.len() ==> (#[trigger] r@[i] matches Some(t) ==> t.path@ == paths@[i]@
                && (is_audio_path(paths@[i]@) ==> full_record(t))),
{
    paths.par_iter().map(|p| extract_track(p.as_str())).collect()
}

/// The present results among the optional ones, in order.
pub open spec fn present_tracks(opts: Seq<Option<Track>>) -> Seq<Track>
    decreases opts.len(),
{
    if opts.len() == 0 {
        Seq::empty()
    } else {
        let rest = present_tracks(opts.drop_last());
        match opts.last() {
            Some(t) => rest.push(t),
            None => rest,
        }
    }
}

/// The track carries a path that occurs among the first `n` elements of
/// `ps`.
pub open spec fn track_from_paths(t: Track, ps: Seq<String>, n: int) -> bool {
    exists|j: int| 0 <= j < n && t.path@ == #[trigger] ps[j]@
}

/// Every track of `ts` carries a path that occurs among the first `n`
/// elements of `ps`.
pub open spec fn tracks_from_paths(ts: Seq<Track>, ps: Seq<String>, n: int) -> bool {
    forall|i: int| 0 <= i < ts.len() ==> track_from_paths(#[trigger] ts[i], ps, n)
}

/// Widening the path window keeps `tracks_from_paths`.
proof fn lemma_tracks_from_paths_widen(ts: Seq<Track>, ps: Seq<String>, n1: int, n2: int)
    requires
        tracks_from_paths(ts, ps, n1),
        n1 <= n2,
    ensures
        tracks_from_paths(ts, ps, n2),
{
    assert forall|i: int| 0 <= i < ts.len() implies track_from_paths(#[trigger] ts[i], ps, n2) by {
        let j = choose|j: int| 0 <= j < n1 && ts[i].path@ == #[trigger] ps[j]@;
        assert(0 <= j < n2 && ts[i].path@ == ps[j]@);
    }
}

/// Merges per-path extraction results into the final track list: exactly
/// the present results, in order; every track keeps the path it was
/// extracted from, so when the paths are distinct no two tracks share one.
pub fn collect_present(paths: &Vec<String>, opts: Vec<Option<Track>>) -> (r: Vec<Track>)
    requires
        opts@.len() == paths@.len(),
        forall|i: int|
            0 <= i < opts@.len() ==> (#[trigger] opts@[i] matches Some(t) ==> t.path@
                == paths@[i]@ && (is_audio_path(paths@[i]@) ==> full_record(t))),
        distinct_views(paths@),
    ensures
        r@ == present_tracks(opts@),
        tracks_from_paths(r@, paths@, paths@.len() as int),
        forall|i1: int, i2: int| 0 <= i1 < i2 < r@.len() ==> r@[i1].path@ != r@[i2].path@,
        forall|i: int|
            0 <= i < r@.len() ==> (is_audio_path((#[trigger] r@[i]).path@) ==> full_record(r@[i])),
{
    let mut out: Vec<Track> = Vec::new();
    let mut k: usize = 0;
    proof {
        assert(opts@.take(0) =~= Seq::<Option<Track>>::empty());
    }
    while k < opts.len()
        invariant
            k <= opts@.len(),
            opts@.len() == paths@.len(),
            forall|i: int|
                0 <= i < opts@.len() ==> (#[trigger] opts@[i] matches Some(t) ==> t.path@
                    == paths@[i]@ && (is_audio_path(paths@[i]@) ==> full_record(t))),
            distinct_views(paths@),
            out@ == present_tracks(opts@.take(k as int)),
            tracks_from_paths(out@, paths@, k as int),
            forall|i1: int, i2: int| 0 <= i1 < i2 < out@.len() ==> out@[i1].path@ != out@[i2].path@,
            forall|i: int|
                0 <= i < out@.len() ==> (is_audio_path((#[trigger] out@[i]).path@) ==> full_record(
                    out@[i],
                )),
        decreases opts@.len() - k,
    {
        proof {
            assert(opts@.take(k + 1).drop_last() =~= opts@.take(k as int));
            assert(opts@.take(k + 1).last() == opts@[k as int]);
        }
        match &opts[k] {
            Some(t) => {
                let ghost prev = out@;
                out.push(t.clone());
                proof {
                    assert(t.path@ == paths@[k as int]@);
                    assert forall|i: int| 0 <= i < out@.len() implies track_from_paths(
                        #[trigger] out@[i],
                        paths@,
                        k as int + 1,
                    ) by {
                        if i < prev.len() {
                            assert(track_from_paths(prev[i], paths@, k as int));
                            let j = choose|j: int|
                                0 <= j < k && prev[i].path@ == #[trigger] paths@[j]@;
                            assert(0 <= j < k + 1 && out@[i].path@ == paths@[j]@);
                        } else {
                            assert(0 <= k < k + 1 && out@[i].path@ == paths@[k as int]@);
                        }
                    }
                    assert forall|i1: int, i2: int| 0 <= i1 < i2 < out@.len() implies out@[i1].path@
                        != out@[i2].path@ by {
                        if i2 == out@.len() - 1 {
                            assert(track_from_paths(prev[i1], paths@, k as int));
                            let j = choose|j: int|
                                0 <= j < k && prev[i1].path@ == #[trigger] paths@[j]@;
                            assert(paths@[j]@ != paths@[k as int]@);
                        }
                    }
                }
            },
            None => {
                proof {
                    lemma_tracks_from_paths_widen(out@, paths@, k as int, k as int + 1);
                }
            },
        }
        k += 1;
    }
    proof {
        assert(opts@.take(opts@.len() as int) =~= opts@);
    }
    out
}

/// Law: a file the classifier rejects never appears in a scan result,
/// whatever its contents: every returned track's path passed the
/// classifier, so no track carries a rejected path.
pub proof fn lemma_non_audio_never_scanned(ts: Seq<Track>, p: Seq<char>)
    requires
        forall|i: int| 0 <= i < ts.len() ==> is_audio_path((#[trigger] ts[i]).path@),
        !is_audio_path(p),
    ensures
        forall|i: int| 0 <= i < ts.len() ==> (#[trigger] ts[i]).path@ != p,
{
}

/// Scan Orchestrator: enumerates the files under `path` by the requested
/// traversal, keeps the audio files, and extracts a Track from each file
/// that can be decoded, in parallel when asked to. A root that is not a
/// readable directory is a scan-level failure, and the only failure: one
/// bad file never fails a scan. Every returned track passed the Audio
/// Classifier, and no two returned tracks share a path.
pub fn scan_music_folder(path: &str, use_parallelism: bool) -> (r: Result<Vec<Track>, ScanError>)
    ensures
        r matches Ok(ts) ==> (forall|i: int|
            0 <= i < ts@.len() ==> is_audio_path((#[trigger] ts@[i]).path@)) && (forall|i: int|
            0 <= i < ts@.len() ==> full_record(#[trigger] ts@[i])) && (forall|i1: int, i2: int|
            0 <= i1 < i2 < ts@.len() ==> ts@[i1].path@ != ts@[i2].path@),
        r matches Err(e) ==> e == ScanError::RootUnreachable,
{
    if !root_is_dir(path) {
        return Err(ScanError::RootUnreachable);
    }
    let entries = if use_parallelism {
        walk_files_parallel(path)
    } else {
        walk_files_sequential(path)
    };
    let audio = filter_audio(&entries);
    proof {
        lemma_audio_paths_from_entries(entries@);
        lemma_audio_paths_distinct(entries@);
    }
    let opts = if use_parallelism {
        extract_tracks_parallel(&audio)
    } else {
        extract_tracks_sequential(&audio)
    };
    let tracks = collect_present(&audio, opts);
    proof {
        assert forall|i: int| 0 <= i < tracks@.len() implies is_audio_path(
            (#[trigger] tracks@[i]).path@,
        ) by {
            assert(track_from_paths(tracks@[i], audio@, audio@.len() as int));
            let j = choose|j: int|
                0 <= j < audio@.len() && tracks@[i].path@ == #[trigger] audio@[j]@;
            assert(is_audio_path(audio@[j]@));
        }
        assert forall|i: int| 0 <= i < tracks@.len() implies full_record(#[trigger] tracks@[i]) by {
            assert(is_audio_path(tracks@[i].path@));
        }
    }
    Ok(tracks)
}

} // verus!
