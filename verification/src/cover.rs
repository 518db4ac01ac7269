//! Cover Extractor: takes the first embedded picture of a file's selected
//! tag container and encodes it as a `data:` URI with a MIME type drawn from
//! a small closed set, defaulting to JPEG.

use vstd::prelude::*;
use base64::Engine;
use lofty::file::TaggedFileExt;
use lofty::picture::MimeType;

verus! {

/// The MIME type declared by an embedded picture, reduced to the closed set
/// the catalog knows; anything else is `Other`.
#[derive(Clone, Copy, Debug, PartialEq, Eq, Structural)]
pub enum CoverMime {
    Png,
    Jpeg,
    Tiff,
    Bmp,
    Gif,
    Other,
}

/// The MIME string a cover is labelled with; anything outside the closed
/// set maps to JPEG.
pub open spec fn mime_str(m: CoverMime) -> Seq<char> {
    match m {
        CoverMime::Png => "image/png"@,
        CoverMime::Jpeg => "image/jpeg"@,
        CoverMime::Tiff => "image/tiff"@,
        CoverMime::Bmp => "image/bmp"@,
        CoverMime::Gif => "image/gif"@,
        CoverMime::Other => "image/jpeg"@,
    }
}

/// What the standard base64 alphabet, with padding, encodes a byte sequence
/// to. A function of the bytes alone.
pub uninterp spec fn base64_of(b: Seq<u8>) -> Seq<char>;

/// A character of the standard base64 alphabet, or the padding character.
pub open spec fn is_base64_char(c: char) -> bool {
    ||| 'A' <= c && c <= 'Z'
    ||| 'a' <= c && c <= 'z'
    ||| '0' <= c && c <= '9'
    ||| c == '+'
    ||| c == '/'
    ||| c == '='
}

/// The base64 form of the bytes is made of standard-alphabet characters and
/// padding only.
pub open spec fn base64_chars_ok(b: Seq<u8>) -> bool {
    forall|i: int| 0 <= i < base64_of(b).len() ==> is_base64_char(#[trigger] base64_of(b)[i])
}

/// The data URI a cover encodes to: the MIME label and the base64 form of
/// the picture bytes.
pub open spec fn data_uri_of(m: CoverMime, b: Seq<u8>) -> Seq<char> {
    "data:"@ + mime_str(m) + ";base64,"@ + base64_of(b)
}

/// Law: a cover with an embedded PNG encodes to a URI that begins with the
/// PNG data-URI prefix, and what follows the prefix is exactly the base64
/// form of the picture bytes.
pub proof fn lemma_png_uri_shape(b: Seq<u8>)
    ensures
        data_uri_of(CoverMime::Png, b).take(22) == "data:image/png;base64,"@,
        data_uri_of(CoverMime::Png, b).skip(22) == base64_of(b),
{
    reveal_strlit("data:");
    reveal_strlit("image/png");
    reveal_strlit(";base64,");
    reveal_strlit("data:image/png;base64,");
    assert(data_uri_of(CoverMime::Png, b).take(22) =~= "data:image/png;base64,"@);
    assert(data_uri_of(CoverMime::Png, b).skip(22) =~= base64_of(b));
}

/// Relies on base64's STANDARD engine: encoding with the standard RFC 4648
/// alphabet (A-Z, a-z, 0-9, `+`, `/`) and `=` padding, a function of the
/// bytes alone; the output takes four characters for every started group of
/// three bytes, and every output character is an alphabet or padding
/// character.
#[verifier::external_body]
fn base64_encode(b: &Vec<u8>) -> (r: String)
    ensures
        r@ == base64_of(b@),
        r@.len() == 4 * ((b@.len() + 2) / 3),
        forall|i: int| 0 <= i < r@.len() ==> is_base64_char(#[trigger] r@[i]),
{
    base64::engine::general_purpose::STANDARD.encode(b)
}

/// Relies on lofty: Probe::open and Probe::read to decode the container,
/// primary_tag falling back to first_tag to select the tag container, and
/// Tag::pictures for its embedded pictures. Returns the raw bytes and
/// declared MIME type of the first picture, or nothing when there is none
/// or the file cannot be decoded. The result depends on what is on disk, so
/// nothing is promised of it.
#[verifier::external_body]
fn probe_picture(path: &str) -> Option<(Vec<u8>, CoverMime)> {
    let tf = lofty::probe::Probe::open(path).ok()?.read().ok()?;
    let tag = tf.primary_tag().or_else(|| tf.first_tag())?;
    let pic = tag.pictures().first()?;
    let mime = match pic.mime_type() {
        Some(MimeType::Png) => CoverMime::Png,
        Some(MimeType::Jpeg) => CoverMime::Jpeg,
        Some(MimeType::Tiff) => CoverMime::Tiff,
        Some(MimeType::Bmp) => CoverMime::Bmp,
        Some(MimeType::Gif) => CoverMime::Gif,
        _ => CoverMime::Other,
    };
    Some((pic.data().to_vec(), mime))
}

/// The MIME label of a cover, as a string slice.
pub fn mime_label(m: CoverMime) -> (r: &'static str)
    ensures
        r@ == mime_str(m),
{
    match m {
        CoverMime::Png => "image/png",
        CoverMime::Jpeg => "image/jpeg",
        CoverMime::Tiff => "image/tiff",
        CoverMime::Bmp => "image/bmp",
        CoverMime::Gif => "image/gif",
        CoverMime::Other => "image/jpeg",
    }
}

/// Wraps picture bytes as a self-describing data URI: the exact
/// concatenation of the scheme, the MIME label, the base64 marker and the
/// base64 form of the bytes.
pub fn make_data_uri(data: &Vec<u8>, mime: CoverMime) -> (r: String)
    ensures
        r@ == data_uri_of(mime, data@),
        base64_chars_ok(data@),
{
    let mut s = String::from_str("data:");
    s.append(mime_label(mime));
    s.append(";base64,");
    let b = base64_encode(data);
    s.append(b.as_str());
    s
}

/// Cover Extractor: the first embedded picture of the file's selected tag
/// container, as a data URI, or nothing when the file has no embedded
/// picture or cannot be decoded. A failure of one file is never an error.
/// Whatever comes back is a well-formed data URI for some picture: a MIME
/// label from the closed set and a payload of standard base64 characters.
pub fn get_track_cover(path: &str) -> (r: Option<String>)
    ensures
        r matches Some(s) ==> exists|m: CoverMime, b: Seq<u8>|
            s@ == data_uri_of(m, b) && base64_chars_ok(b),
{
    match probe_picture(path) {
        Some((data, mime)) => {
            let uri = make_data_uri(&data, mime);
            proof {
                assert(uri@ == data_uri_of(mime, data@) && base64_chars_ok(data@));
            }
            Some(uri)
        },
        None => None,
    }
}

} // verus!
