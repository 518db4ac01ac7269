//! Audio Classifier: a pure predicate deciding whether a path names an audio
//! file, by lower-casing its extension and testing membership in a fixed set.

use vstd::prelude::*;
use crate::text::lower_char;
use crate::text::lower_seq;
use crate::text::lower;
use crate::path_model::extension_of;
use crate::path_model::extension_str;

verus! {

/// The fixed set of recognized audio extensions, in lower case.
pub open spec fn is_audio_ext(e: Seq<char>) -> bool {
    ||| e == "mp3"@
    ||| e == "flac"@
    ||| e == "wav"@
    ||| e == "m4a"@
    ||| e == "ogg"@
    ||| e == "aac"@
}

/// A path names an audio file when it has an extension whose lower-cased
/// form is one of the recognized audio extensions.
pub open spec fn is_audio_path(path: Seq<char>) -> bool {
    match extension_of(path) {
        Some(e) => is_audio_ext(lower_seq(e)),
        None => false,
    }
}

/// Compares the lower-cased form of `e` against `lit`, character by
/// character.
fn ext_matches(e: &str, lit: &str) -> (r: bool)
    ensures
        r == (lower_seq(e@) == lit@),
{
    let ne = e.unicode_len();
    let nl = lit.unicode_len();
    if ne != nl {
        proof {
            assert(lower_seq(e@).len() == e@.len());
        }
        return false;
    }
    let mut i: usize = 0;
    while i < ne
        invariant
            i <= ne,
            ne == e@.len(),
            ne == lit@.len(),
            forall|j: int| 0 <= j < i ==> lower_char(e@[j]) == lit@[j],
        decreases ne - i,
    {
        let c = lower(e.get_char(i));
        let d = lit.get_char(i);
        if c != d {
            proof {
                assert(lower_seq(e@)[i as int] == lower_char(e@[i as int]));
                if lower_seq(e@) == lit@ {
                    assert(lower_seq(e@)[i as int] == lit@[i as int]);
                }
            }
            return false;
        }
        i += 1;
    }
    proof {
        assert(lower_seq(e@) =~= lit@);
    }
    true
}

/// Audio Classifier: true exactly when the path's extension, lower-cased,
/// is one of mp3, flac, wav, m4a, ogg, aac. A path without an extension is
/// rejected.
pub fn is_audio_file(path: &str) -> (r: bool)
    ensures
        r == is_audio_path(path@),
{
    match extension_str(path) {
        Some(e) => ext_matches(e, "mp3") || ext_matches(e, "flac") || ext_matches(e, "wav")
            || ext_matches(e, "m4a") || ext_matches(e, "ogg") || ext_matches(e, "aac"),
        None => false,
    }
}

} // verus!
