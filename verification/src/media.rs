//! Image formats the vision API accepts, and the `data:` URLs that carry
//! image bytes to it (base64 through the `base64` crate).

use vstd::prelude::*;
use base64::Engine;
use crate::error::{VisionError, VisionFault};
use crate::text::{
    ascii_lowercase, ascii_uppercase, lemma_ascii_case_folds, same_text, unicode_lowercase,
};

verus! {

/// The MIME type of an already lowercased image extension, when it is one the
/// API accepts: `jpg`/`jpeg`, `png`, `webp`, `gif`.
pub open spec fn image_mime(lower: Seq<char>) -> Option<Seq<char>> {
    if lower == "jpg"@ || lower == "jpeg"@ {
        Some("image/jpeg"@)
    } else if lower == "png"@ {
        Some("image/png"@)
    } else if lower == "webp"@ {
        Some("image/webp"@)
    } else if lower == "gif"@ {
        Some("image/gif"@)
    } else {
        None
    }
}

/// Whether an already lowercased extension is HEIC/HEIF.
pub open spec fn is_heic(lower: Seq<char>) -> bool {
    lower == "heic"@ || lower == "heif"@
}

/// The outcome of looking up the MIME type of a lowercased extension.
pub open spec fn mime_outcome(lower: Seq<char>) -> Result<Seq<char>, VisionFault> {
    match image_mime(lower) {
        Some(m) => Ok(m),
        None => if is_heic(lower) {
            Err(VisionFault::HeicUnsupported)
        } else {
            Err(VisionFault::UnsupportedFormat { ext: lower })
        },
    }
}

/// The view of a MIME lookup result.
pub open spec fn mime_result_view(r: Result<&'static str, VisionError>) -> Result<Seq<char>, VisionFault> {
    match r {
        Ok(m) => Ok(m@),
        Err(e) => Err(e@),
    }
}

/// Returns the MIME type for an already lowercased image extension.
///
/// HEIC/HEIF get their own error; any other extension is unsupported.
pub fn mime_for_lowercase_ext(lower: &str) -> (r: Result<&'static str, VisionError>)
    ensures
        mime_result_view(r) == mime_outcome(lower@),
{
    if same_text(lower, "jpg") || same_text(lower, "jpeg") {
        Ok("image/jpeg")
    } else if same_text(lower, "png") {
        Ok("image/png")
    } else if same_text(lower, "webp") {
        Ok("image/webp")
    } else if same_text(lower, "gif") {
        Ok("image/gif")
    } else if same_text(lower, "heic") || same_text(lower, "heif") {
        Err(VisionError::HeicUnsupported)
    } else {
        Err(VisionError::UnsupportedFormat { ext: String::from_str(lower) })
    }
}

/// The standard base64 text (RFC 4648 alphabet, `=` padding) of a byte
/// sequence, as `base64::engine::general_purpose::STANDARD` encodes it.
pub uninterp spec fn standard_base64(bytes: Seq<u8>) -> Seq<char>;

/// Whether `n` bytes can be base64-encoded without the encoded length
/// overflowing `usize` (the encoder panics otherwise).
pub open spec fn encodable_len(n: nat) -> bool {
    (n + 2) / 3 * 4 <= usize::MAX
}

/// Whether a buffer of `n` bytes can be base64-encoded (see `encodable_len`).
pub fn fits_base64(n: usize) -> (r: bool)
    ensures
        r == encodable_len(n as nat),
{
    n / 3 <= usize::MAX / 4 && (n % 3 == 0 || n / 3 * 4 <= usize::MAX - 4)
}

/// Calls `Engine::encode` of `base64::engine::general_purpose::STANDARD`.
/// The text is named `standard_base64` of the bytes; its length is the padded
/// length that `base64::encoded_len` documents, four characters for every
/// started group of three bytes.
#[verifier::external_body]
fn encode_base64(bytes: &[u8]) -> (r: String)
    requires
        encodable_len(bytes@.len()),
    ensures
        r@ == standard_base64(bytes@),
        r@.len() == (bytes@.len() + 2) / 3 * 4,
{
    base64::engine::general_purpose::STANDARD.encode(bytes)
}

/// The `data:` URL of base64 text with a MIME type.
pub open spec fn data_url_text(mime: Seq<char>, encoded: Seq<char>) -> Seq<char> {
    "data:"@ + mime + ";base64,"@ + encoded
}

/// Builds `data:{mime};base64,{encoded}` from already encoded text.
pub fn data_url_for_encoded(mime: &str, encoded: &str) -> (r: String)
    ensures
        r@ == data_url_text(mime@, encoded@),
{
    let mut s = String::from_str("data:");
    s.append(mime);
    s.append(";base64,");
    s.append(encoded);
    s
}

/// Base64-encodes `bytes` and wraps them in a `data:` URL of type `mime`.
pub fn data_url(mime: &str, bytes: &[u8]) -> (r: String)
    requires
        encodable_len(bytes@.len()),
    ensures
        r@ == data_url_text(mime@, standard_base64(bytes@)),
{
    let encoded = encode_base64(bytes);
    data_url_for_encoded(mime, encoded.as_str())
}

} // verus!

verus! {

/// Law: the image-format check is case-insensitive: two extensions with the
/// same lowercase form get the same MIME type or the same error.
pub proof fn lemma_mime_case_insensitive(a: Seq<char>, b: Seq<char>)
    requires
        unicode_lowercase(a) == unicode_lowercase(b),
    ensures
        mime_outcome(unicode_lowercase(a)) == mime_outcome(unicode_lowercase(b)),
{
}

/// Law: the image-format check ignores the case of ASCII letters: an
/// extension and its ASCII-uppercased and ASCII-lowercased forms get the same
/// outcome (`VisionClient::mime_for_ext` decides by
/// `mime_outcome(unicode_lowercase(ascii_lowercase(ext)))`).
pub proof fn lemma_mime_ignores_ascii_case(s: Seq<char>)
    ensures
        mime_outcome(unicode_lowercase(ascii_lowercase(ascii_uppercase(s)))) == mime_outcome(
            unicode_lowercase(ascii_lowercase(s)),
        ),
        mime_outcome(unicode_lowercase(ascii_lowercase(ascii_lowercase(s)))) == mime_outcome(
            unicode_lowercase(ascii_lowercase(s)),
        ),
{
    lemma_ascii_case_folds(s);
}

/// Law: an accepted extension always maps to one of the four MIME types the
/// API takes, and HEIC/HEIF are never accepted.
pub proof fn lemma_mime_outcomes(lower: Seq<char>)
    ensures
        mime_outcome(lower) matches Ok(m) ==> (m == "image/jpeg"@ || m == "image/png"@ || m
            == "image/webp"@ || m == "image/gif"@),
        is_heic(lower) ==> mime_outcome(lower) == Err::<Seq<char>, VisionFault>(VisionFault::HeicUnsupported),
{
    reveal_strlit("heic");
    reveal_strlit("heif");
    reveal_strlit("jpg");
    reveal_strlit("jpeg");
    reveal_strlit("png");
    reveal_strlit("webp");
    reveal_strlit("gif");
    if is_heic(lower) {
        assert(lower[0] == 'h');
        assert(lower != "jpg"@ && lower != "jpeg"@ && lower != "png"@ && lower != "webp"@ && lower
            != "gif"@) by {
            assert("jpg"@[0] == 'j' && "jpeg"@[0] == 'j' && "png"@[0] == 'p' && "webp"@[0] == 'w'
                && "gif"@[0] == 'g');
        }
    }
}

} // verus!

verus! {

/// Law: exactly `jpg`, `jpeg`, `png`, `webp` and `gif` are accepted, each
/// with its own MIME type (`jpg` and `jpeg` both `image/jpeg`); `heic` and
/// `heif` get the HEIC error; every other lowercased extension is
/// unsupported, and the error names it.
pub proof fn lemma_mime_table(lower: Seq<char>)
    ensures
        (lower == "jpg"@ || lower == "jpeg"@) ==> mime_outcome(lower) == Ok::<Seq<char>, VisionFault>(
            "image/jpeg"@,
        ),
        lower == "png"@ ==> mime_outcome(lower) == Ok::<Seq<char>, VisionFault>("image/png"@),
        lower == "webp"@ ==> mime_outcome(lower) == Ok::<Seq<char>, VisionFault>("image/webp"@),
        lower == "gif"@ ==> mime_outcome(lower) == Ok::<Seq<char>, VisionFault>("image/gif"@),
        (lower == "heic"@ || lower == "heif"@) ==> mime_outcome(lower) == Err::<Seq<char>, VisionFault>(
            VisionFault::HeicUnsupported,
        ),
        !(lower == "jpg"@ || lower == "jpeg"@ || lower == "png"@ || lower == "webp"@ || lower
            == "gif"@ || lower == "heic"@ || lower == "heif"@) ==> mime_outcome(lower) == Err::<
            Seq<char>,
            VisionFault,
        >(VisionFault::UnsupportedFormat { ext: lower }),
        (mime_outcome(lower) is Ok) == (lower == "jpg"@ || lower == "jpeg"@ || lower == "png"@
            || lower == "webp"@ || lower == "gif"@),
{
    lemma_mime_outcomes(lower);
    reveal_strlit("jpg");
    reveal_strlit("jpeg");
    reveal_strlit("png");
    reveal_strlit("webp");
    reveal_strlit("gif");
    reveal_strlit("heic");
    reveal_strlit("heif");
    assert("png"@ != "jpg"@ && "png"@ != "jpeg"@) by {
        assert("png"@[0] != "jpg"@[0] && "png"@[0] != "jpeg"@[0]);
    }
    assert("webp"@ != "jpg"@ && "webp"@ != "jpeg"@ && "webp"@ != "png"@) by {
        assert("webp"@[0] != "jpg"@[0] && "webp"@[0] != "jpeg"@[0] && "webp"@[0] != "png"@[0]);
    }
    assert("gif"@ != "jpg"@ && "gif"@ != "jpeg"@ && "gif"@ != "png"@ && "gif"@ != "webp"@) by {
        assert("gif"@[0] != "jpg"@[0] && "gif"@[0] != "jpeg"@[0] && "gif"@[0] != "png"@[0]
            && "gif"@[0] != "webp"@[0]);
    }
}

} // verus!
