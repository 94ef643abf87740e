//! Extracting a media preview from the downloader's metadata document.
//!
//! Asked for metadata only, the downloader prints one JSON document.  The
//! preview takes the document's first collection entry when it has one
//! (a playlist) and the document itself otherwise, then reads a handful of
//! text fields with fixed fallback chains.  The JSON crate does the
//! parsing; which entry and which fields are chosen is verified logic
//! here.
//!
//! The document's numeric duration field is floating point, which this
//! crate does not handle; the embedding application reads it from the
//! same document directly.

use vstd::prelude::*;

verus! {

/// What `v.get(key)` followed by `as_str` yields: the text of the named
/// field, when the field exists and is a string.
pub uninterp spec fn json_text_field(v: serde_json::Value, key: Seq<char>) -> Option<Seq<char>>;

/// The document's `entries` field is an array with at least one element.
pub uninterp spec fn json_has_primary_entry(v: serde_json::Value) -> bool;

/// The text of the named field of the first element of the document's
/// `entries` array.
pub uninterp spec fn json_entry_text_field(v: serde_json::Value, key: Seq<char>) -> Option<
    Seq<char>,
>;

/// The bytes parse as one JSON document.
pub uninterp spec fn json_parses(bytes: Seq<u8>) -> bool;

/// The text of the named field of the document the bytes parse to.
pub uninterp spec fn json_field_of(bytes: Seq<u8>, key: Seq<char>) -> Option<Seq<char>>;

/// The document the bytes parse to has an `entries` array with at least
/// one element.
pub uninterp spec fn json_has_primary_entry_of(bytes: Seq<u8>) -> bool;

/// The text of the named field of the first `entries` element of the
/// document the bytes parse to.
pub uninterp spec fn json_entry_field_of(bytes: Seq<u8>, key: Seq<char>) -> Option<Seq<char>>;

/// Declares `serde_json::Value` as an opaque type; its text fields are
/// reached only through the wrappers below.
#[verifier::external_type_specification]
#[verifier::external_body]
pub struct ExJsonValue(serde_json::Value);

/// Why no preview could be produced.
#[derive(Debug, Clone, Copy, PartialEq, Eq, Structural)]
pub enum PreviewError {
    /// The downloader's output was not one JSON document.
    InvalidDocument,
}

impl PreviewError {
    /// A human-readable cause for the caller.
    pub fn message(&self) -> (r: String)
        ensures
            r@ == "the media information could not be parsed"@,
    {
        String::from_str("the media information could not be parsed")
    }
}

/// Relies on `serde_json::from_slice::<Value>`: whether bytes parse as
/// one JSON document, and which document they parse to, are functions of
/// the bytes alone — so the returned document's fields equal the
/// byte-level field functions.
#[verifier::external_body]
fn json_parse(bytes: &Vec<u8>) -> (r: Result<serde_json::Value, PreviewError>)
    ensures
        match r {
            Ok(v) => {
                &&& json_parses(bytes@)
                &&& json_has_primary_entry(v) == json_has_primary_entry_of(bytes@)
                &&& forall|k: Seq<char>| json_text_field(v, k) == json_field_of(bytes@, k)
                &&& forall|k: Seq<char>|
                    json_entry_text_field(v, k) == json_entry_field_of(bytes@, k)
            },
            Err(e) => e == PreviewError::InvalidDocument && !json_parses(bytes@),
        },
{
    serde_json::from_slice::<serde_json::Value>(bytes.as_slice()).map_err(
        |_| PreviewError::InvalidDocument,
    )
}

/// Relies on `serde_json::Value::get` and `Value::as_str`: the text of a
/// named field is a function of the document value alone.
#[verifier::external_body]
fn json_get_str(v: &serde_json::Value, key: &str) -> (r: Option<String>)
    ensures
        match r {
            Some(s) => json_text_field(*v, key@) == Some(s@),
            None => json_text_field(*v, key@) is None,
        },
{
    v.get(key).and_then(serde_json::Value::as_str).map(str::to_string)
}

/// Relies on `serde_json::Value::get`, `Value::as_array` and the array's
/// `first`: whether a document has a first `entries` element, and that
/// element's fields, are functions of the document value alone.
#[verifier::external_body]
fn json_first_entry(v: &serde_json::Value) -> (r: Option<serde_json::Value>)
    ensures
        match r {
            Some(e) => json_has_primary_entry(*v) && forall|k: Seq<char>|
                json_text_field(e, k) == json_entry_text_field(*v, k),
            None => !json_has_primary_entry(*v),
        },
{
    v.get("entries").and_then(serde_json::Value::as_array).and_then(|a| a.first()).cloned()
}

/// Relies on `serde_json::Value`'s derived `Clone`: the clone is the same
/// document.
pub assume_specification[ <serde_json::Value as Clone>::clone ](v: &serde_json::Value) -> (r:
    serde_json::Value)
    ensures
        r == *v,
;

/// The preview's source for one key: the first collection entry when the
/// document has one, the document itself otherwise.
pub open spec fn payload_text(v: serde_json::Value, key: Seq<char>) -> Option<Seq<char>> {
    if json_has_primary_entry(v) {
        json_entry_text_field(v, key)
    } else {
        json_text_field(v, key)
    }
}

/// The first of two optional texts that is present.
pub open spec fn opt_or(a: Option<Seq<char>>, b: Option<Seq<char>>) -> Option<Seq<char>> {
    if a is Some {
        a
    } else {
        b
    }
}

/// The preview's uploader: the payload's `uploader`, else `channel`, else
/// `artist`.
pub open spec fn spec_uploader(v: serde_json::Value) -> Option<Seq<char>> {
    opt_or(payload_text(v, "uploader"@), opt_or(payload_text(v, "channel"@), payload_text(v, "artist"@)))
}

/// The preview's extractor: the payload's `extractor_key`, else
/// `extractor`.
pub open spec fn spec_extractor(v: serde_json::Value) -> Option<Seq<char>> {
    opt_or(payload_text(v, "extractor_key"@), payload_text(v, "extractor"@))
}

/// The preview's canonical URL: the payload's `webpage_url`, else
/// `original_url`, else `url`.
pub open spec fn spec_webpage_url(v: serde_json::Value) -> Option<Seq<char>> {
    opt_or(
        payload_text(v, "webpage_url"@),
        opt_or(payload_text(v, "original_url"@), payload_text(v, "url"@)),
    )
}

/// The text fields of a media preview.
#[derive(Debug, Clone)]
pub struct MediaPreview {
    /// The media's title.
    pub title: Option<String>,
    /// A thumbnail image URL.
    pub thumbnail: Option<String>,
    /// The uploader, channel or artist, in that order of preference.
    pub uploader: Option<String>,
    /// The extractor that handled the URL.
    pub extractor: Option<String>,
    /// The canonical page URL.
    pub webpage_url: Option<String>,
}

/// `p` holds exactly the preview fields of the document `v`.
pub open spec fn preview_matches(p: MediaPreview, v: serde_json::Value) -> bool {
    &&& p.title.deep_view() == payload_text(v, "title"@)
    &&& p.thumbnail.deep_view() == payload_text(v, "thumbnail"@)
    &&& p.uploader.deep_view() == spec_uploader(v)
    &&& p.extractor.deep_view() == spec_extractor(v)
    &&& p.webpage_url.deep_view() == spec_webpage_url(v)
}

/// The preview's source for one key, as a function of the raw bytes: the
/// first collection entry of the parsed document when it has one, the
/// document itself otherwise.
pub open spec fn payload_text_of(bytes: Seq<u8>, key: Seq<char>) -> Option<Seq<char>> {
    if json_has_primary_entry_of(bytes) {
        json_entry_field_of(bytes, key)
    } else {
        json_field_of(bytes, key)
    }
}

/// `p` holds exactly the preview fields of the document the bytes parse
/// to: each field equals its fallback chain over the byte-level field
/// functions.
pub open spec fn preview_matches_bytes(p: MediaPreview, bytes: Seq<u8>) -> bool {
    &&& p.title.deep_view() == payload_text_of(bytes, "title"@)
    &&& p.thumbnail.deep_view() == payload_text_of(bytes, "thumbnail"@)
    &&& p.uploader.deep_view() == opt_or(
        payload_text_of(bytes, "uploader"@),
        opt_or(payload_text_of(bytes, "channel"@), payload_text_of(bytes, "artist"@)),
    )
    &&& p.extractor.deep_view() == opt_or(
        payload_text_of(bytes, "extractor_key"@),
        payload_text_of(bytes, "extractor"@),
    )
    &&& p.webpage_url.deep_view() == opt_or(
        payload_text_of(bytes, "webpage_url"@),
        opt_or(payload_text_of(bytes, "original_url"@), payload_text_of(bytes, "url"@)),
    )
}

/// Reads the preview fields of one parsed metadata document.
pub fn preview_from_value(v: &serde_json::Value) -> (r: MediaPreview)
    ensures
        preview_matches(r, *v),
{
    let payload: serde_json::Value = match json_first_entry(v) {
        Some(e) => e,
        None => v.clone(),
    };
    let title = json_get_str(&payload, "title");
    let thumbnail = json_get_str(&payload, "thumbnail");
    let uploader = match json_get_str(&payload, "uploader") {
        Some(s) => Some(s),
        None => match json_get_str(&payload, "channel") {
            Some(s) => Some(s),
            None => json_get_str(&payload, "artist"),
        },
    };
    let extractor = match json_get_str(&payload, "extractor_key") {
        Some(s) => Some(s),
        None => json_get_str(&payload, "extractor"),
    };
    let webpage_url = match json_get_str(&payload, "webpage_url") {
        Some(s) => Some(s),
        None => match json_get_str(&payload, "original_url") {
            Some(s) => Some(s),
            None => json_get_str(&payload, "url"),
        },
    };
    MediaPreview { title, thumbnail, uploader, extractor, webpage_url }
}

/// Parses the downloader's metadata output and reads the preview fields.
/// Fails exactly when the bytes are not one JSON document; a produced
/// preview holds exactly the fields of the document the bytes parse to.
pub fn preview_from_bytes(bytes: &Vec<u8>) -> (r: Result<MediaPreview, PreviewError>)
    ensures
        r is Ok <==> json_parses(bytes@),
        match r {
            Ok(p) => preview_matches_bytes(p, bytes@),
            Err(e) => e == PreviewError::InvalidDocument,
        },
{
    let parsed = match json_parse(bytes) {
        Ok(v) => v,
        Err(e) => {
            return Err(e);
        },
    };
    let p = preview_from_value(&parsed);
    proof {
        assert(preview_matches(p, parsed));
        assert(preview_matches_bytes(p, bytes@));
    }
    Ok(p)
}

} // verus!
