//! Persona images: where they are stored, and how an uploaded data URI is read.
use vstd::prelude::*;
use base64::Engine;
use crate::text::{chars_of, find, find_from, lemma_find_from, matches_at, occurs_at, string_of_range};

verus! {

broadcast use vstd::string::group_string_axioms;

/// Which image of a persona an asset is.
#[derive(Debug, Clone, Copy, PartialEq, Eq, Structural)]
pub enum AssetKind {
    Avatar,
    Background,
}

/// The file extension of an accepted image type: PNG, JPEG and WebP.
pub open spec fn extension_of(mime_type: Seq<char>) -> Option<Seq<char>> {
    if mime_type == "image/png"@ {
        Some("png"@)
    } else if mime_type == "image/jpeg"@ {
        Some("jpg"@)
    } else if mime_type == "image/webp"@ {
        Some("webp"@)
    } else {
        None
    }
}

/// The stem of an asset's file name.
pub open spec fn stem_of(kind: AssetKind) -> Seq<char> {
    match kind {
        AssetKind::Avatar => "avatar"@,
        AssetKind::Background => "background"@,
    }
}

/// The file extension for an image type, or `None` for a type that is not accepted.
pub fn asset_extension(mime_type: &str) -> (r: Option<&'static str>)
    ensures
        match extension_of(mime_type@) {
            Some(e) => r matches Some(x) && x@ == e,
            None => r is None,
        },
{
    if crate::text::str_eq(mime_type, "image/png") {
        Some("png")
    } else if crate::text::str_eq(mime_type, "image/jpeg") {
        Some("jpg")
    } else if crate::text::str_eq(mime_type, "image/webp") {
        Some("webp")
    } else {
        None
    }
}

/// The file name an asset is stored under in its persona's directory: the kind's stem,
/// a dot and the type's extension; `None` for a type that is not accepted.
pub fn asset_file_name(kind: AssetKind, mime_type: &str) -> (r: Option<String>)
    ensures
        match extension_of(mime_type@) {
            Some(e) => r matches Some(n) && n@ == stem_of(kind) + "."@ + e,
            None => r is None,
        },
{
    let ext = match asset_extension(mime_type) {
        Some(e) => e,
        None => {
            return None;
        },
    };
    let stem = match kind {
        AssetKind::Avatar => "avatar",
        AssetKind::Background => "background",
    };
    Some(crate::text::concat3(stem, ".", ext))
}

/// The bytes that the standard base64 alphabet, with canonical padding, decodes from a
/// text, or `None` where the text is not such base64.
pub uninterp spec fn base64_decoded(data: Seq<char>) -> Option<Seq<u8>>;

/// `base64::engine::general_purpose::STANDARD.decode`, with its error dropped; the
/// result is named by `base64_decoded`.
#[verifier::external_body]
fn decode_base64(data: &str) -> (r: Option<Vec<u8>>)
    ensures
        match base64_decoded(data@) {
            Some(b) => r matches Some(v) && v@ == b,
            None => r is None,
        },
{
    base64::engine::general_purpose::STANDARD.decode(data).ok()
}

/// The two parts of a base64 data URI: the media type between `data:` and the first
/// `;base64,`, and the payload after it; `None` where the URI does not start with
/// `data:` or has no `;base64,`.
pub open spec fn data_uri_parts(uri: Seq<char>) -> Option<(Seq<char>, Seq<char>)> {
    let k = find_from(uri, ";base64,"@, 0);
    if !occurs_at(uri, "data:"@, 0) || k < 0 {
        None
    } else {
        Some((uri.subrange(5, k), uri.subrange(k + 8, uri.len() as int)))
    }
}

/// Splits a data URI into its media type and its base64 payload.
pub fn split_data_uri(uri: &str) -> (r: Option<(String, String)>)
    ensures
        match data_uri_parts(uri@) {
            Some((m, d)) => r matches Some((rm, rd)) && rm@ == m && rd@ == d,
            None => r is None,
        },
{
    proof {
        reveal_strlit("data:");
        reveal_strlit(";base64,");
        lemma_find_from(uri@, ";base64,"@, 0);
    }
    let v = chars_of(uri);
    let prefix = chars_of("data:");
    if !matches_at(&v, &prefix, 0) {
        return None;
    }
    let marker = chars_of(";base64,");
    let k = match find(&v, &marker, 0) {
        Some(k) => k,
        None => {
            return None;
        },
    };
    assert(occurs_at(uri@, ";base64,"@, k as int));
    assert(k >= 5) by {
        if k < 5 {
            assert(uri@.subrange(k as int, k + 8)[0] == ';');
            assert(uri@[k as int] == ';');
            assert(uri@.subrange(0, 5)[k as int] == uri@[k as int]);
        }
    }
    let mime_type = string_of_range(&v, 5, k);
    let data = string_of_range(&v, k + 8, v.len());
    Some((mime_type, data))
}

/// A decoded data URI: its media type with the decoded payload, or `None` where the
/// payload was not valid base64.
pub fn decoded_data_uri(mime_type: String, decoded: Option<Vec<u8>>) -> (r: Option<(String, Vec<u8>)>)
    ensures
        match decoded {
            Some(b) => r matches Some((m, v)) && m == mime_type && v@ == b@,
            None => r is None,
        },
{
    match decoded {
        Some(b) => Some((mime_type, b)),
        None => None,
    }
}

/// Reads a `data:<type>;base64,<payload>` URI into its media type and decoded bytes;
/// `None` where it has no such shape or the payload is not valid standard base64.
pub fn parse_data_uri(uri: &str) -> (r: Option<(String, Vec<u8>)>)
    ensures
        match data_uri_parts(uri@) {
            None => r is None,
            Some((m, d)) => match base64_decoded(d) {
                None => r is None,
                Some(b) => r matches Some((rm, rb)) && rm@ == m && rb@ == b,
            },
        },
{
    let (mime_type, data) = match split_data_uri(uri) {
        Some(parts) => parts,
        None => {
            return None;
        },
    };
    let decoded = decode_base64(data.as_str());
    decoded_data_uri(mime_type, decoded)
}

} // verus!
