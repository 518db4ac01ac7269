//! A mathematical model of file paths as character sequences: the file-name
//! portion of a path, and its split into stem and extension. `/` is the only
//! directory separator — the model is for Unix-style paths, the ones the
//! traversals here yield — and the split follows the usual convention that a
//! leading dot (a hidden file) does not start an extension.

use vstd::prelude::*;
use crate::text::find_last_spec;
use crate::text::lemma_find_last_bounds;
use crate::text::find_last;

verus! {

/// The file-name portion of a path: everything after the last `/`, or the
/// whole path when it has no `/`.
pub open spec fn file_name_of(path: Seq<char>) -> Seq<char> {
    match find_last_spec(path, '/') {
        Some(i) => path.subrange(i + 1, path.len() as int),
        None => path,
    }
}

/// The position of the dot separating stem and extension within a file name:
/// the last `.`, provided it is not the first character of the name.
pub open spec fn ext_dot_of(name: Seq<char>) -> Option<int> {
    match find_last_spec(name, '.') {
        Some(i) => if i > 0 {
            Some(i)
        } else {
            None
        },
        None => None,
    }
}

/// The extension of a path: what follows the separating dot of its file
/// name, or nothing when the name has no such dot.
pub open spec fn extension_of(path: Seq<char>) -> Option<Seq<char>> {
    let name = file_name_of(path);
    match ext_dot_of(name) {
        Some(i) => Some(name.subrange(i + 1, name.len() as int)),
        None => None,
    }
}

/// The stem of a path: its file name with the extension and the separating
/// dot stripped, or the whole file name when there is no extension.
pub open spec fn stem_of(path: Seq<char>) -> Seq<char> {
    let name = file_name_of(path);
    match ext_dot_of(name) {
        Some(i) => name.subrange(0, i),
        None => name,
    }
}

/// A path that has an extension has a non-empty stem: the separating dot
/// is never the first character of the file name.
pub proof fn lemma_stem_nonempty(path: Seq<char>)
    requires
        extension_of(path) is Some,
    ensures
        stem_of(path).len() > 0,
{
    let name = file_name_of(path);
    lemma_find_last_bounds(name, '.');
}

/// The file-name portion of a path, as a borrowed slice.
pub fn file_name_str<'a>(path: &'a str) -> (r: &'a str)
    ensures
        r@ == file_name_of(path@),
{
    let n = path.unicode_len();
    match find_last(path, '/') {
        Some(i) => {
            proof {
                lemma_find_last_bounds(path@, '/');
            }
            path.substring_char(i + 1, n)
        },
        None => path,
    }
}

/// The position of the separating dot of a file name, if any.
pub fn ext_dot_index(name: &str) -> (r: Option<usize>)
    ensures
        match r {
            Some(i) => ext_dot_of(name@) == Some(i as int),
            None => ext_dot_of(name@) is None,
        },
{
    match find_last(name, '.') {
        Some(i) => if i > 0 {
            Some(i)
        } else {
            None
        },
        None => None,
    }
}

/// The extension of a path, as a borrowed slice.
pub fn extension_str<'a>(path: &'a str) -> (r: Option<&'a str>)
    ensures
        match r {
            Some(e) => extension_of(path@) == Some(e@),
            None => extension_of(path@) is None,
        },
{
    let name = file_name_str(path);
    let n = name.unicode_len();
    match ext_dot_index(name) {
        Some(i) => {
            proof {
                lemma_find_last_bounds(name@, '.');
            }
            Some(name.substring_char(i + 1, n))
        },
        None => None,
    }
}

/// The stem of a path, as an owned string.
pub fn stem_string(path: &str) -> (r: String)
    ensures
        r@ == stem_of(path@),
{
    let name = file_name_str(path);
    match ext_dot_index(name) {
        Some(i) => {
            proof {
                lemma_find_last_bounds(name@, '.');
            }
            let s = name.substring_char(0, i);
            s.to_owned()
        },
        None => name.to_owned(),
    }
}

} // verus!
