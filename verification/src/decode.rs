//! Decoding the extracted payload into the gallery. The payload is expected
//! to be a JSON object whose `photoData` member is an array of objects, each
//! with the three string fields of a [`Photo`]. The JSON parsing itself is
//! done by `serde_json`; this module walks the parsed value and rejects any
//! missing member or type mismatch as `MalformedPayload`, with no coercion
//! and no defaulting.
//!
//! Parsing and each accessor are functions of their arguments alone, so the
//! parsed value and what the accessors see in it are given uninterpreted
//! names, and the decoder's contract pins its result over those names: the
//! gallery holds exactly the payload's records, in declaration order.

use vstd::prelude::*;
use crate::errors::PipelineError;
use crate::gallery::{Gallery, Photo};

verus! {

#[verifier::external_type_specification]
#[verifier::external_body]
pub struct ExJsonValue(serde_json::Value);

#[verifier::external_type_specification]
#[verifier::external_body]
pub struct ExJsonError(serde_json::Error);

/// Whether `serde_json` accepts this text as a JSON document. Parsing is a
/// function of the text alone.
pub uninterp spec fn json_ok(s: Seq<char>) -> bool;

/// The JSON value this text parses into; meaningful only when `json_ok`.
pub uninterp spec fn json_value_of(s: Seq<char>) -> serde_json::Value;

/// The member a JSON value holds under a key, if the value is an object
/// that has the key.
pub uninterp spec fn json_member(v: serde_json::Value, key: Seq<char>) -> Option<
    serde_json::Value,
>;

/// The elements a JSON value holds, if it is an array.
pub uninterp spec fn json_elements(v: serde_json::Value) -> Option<Seq<serde_json::Value>>;

/// The text a JSON value holds, if it is a string.
pub uninterp spec fn json_text(v: serde_json::Value) -> Option<Seq<char>>;

/// Relies on `serde_json::from_str::<Value>`: parses the text as a JSON
/// document or rejects it, by the text alone.
#[verifier::external_body]
fn parse_json(s: &str) -> (r: Result<serde_json::Value, serde_json::Error>)
    ensures
        r is Ok <==> json_ok(s@),
        r matches Ok(v) ==> v == json_value_of(s@),
{
    serde_json::from_str(s)
}

/// Relies on `serde_json::Value::get`: the member of a JSON object under
/// this key, or nothing if the value is not an object or lacks the key —
/// a lookup determined by the value and the key.
#[verifier::external_body]
fn json_get<'a>(v: &'a serde_json::Value, key: &str) -> (r: Option<&'a serde_json::Value>)
    ensures
        match r {
            Some(m) => json_member(*v, key@) == Some(*m),
            None => json_member(*v, key@) is None,
        },
{
    v.get(key)
}

/// Relies on `serde_json::Value::as_array`: the elements, if the value is a
/// JSON array — a match on the value's variant.
#[verifier::external_body]
fn json_as_array<'a>(v: &'a serde_json::Value) -> (r: Option<&'a Vec<serde_json::Value>>)
    ensures
        match r {
            Some(a) => json_elements(*v) == Some(a@),
            None => json_elements(*v) is None,
        },
{
    v.as_array()
}

/// Relies on `serde_json::Value::as_str`: the text, if the value is a JSON
/// string — a match on the value's variant.
#[verifier::external_body]
fn json_as_str<'a>(v: &'a serde_json::Value) -> (r: Option<&'a str>)
    ensures
        match r {
            Some(t) => json_text(*v) == Some(t@),
            None => json_text(*v) is None,
        },
{
    v.as_str()
}

/// The string member of a JSON value under a key: the member must exist and
/// be a JSON string.
pub open spec fn member_text(v: serde_json::Value, key: Seq<char>) -> Option<Seq<char>> {
    match json_member(v, key) {
        Some(m) => json_text(m),
        None => None,
    }
}

/// The three string fields of one photo record, in the order
/// `url`, `original_url`, `taken_at`.
pub open spec fn record_fields(v: serde_json::Value) -> Option<(Seq<char>, Seq<char>, Seq<char>)> {
    match member_text(v, "url"@) {
        Some(u) => match member_text(v, "original_url"@) {
            Some(o) => match member_text(v, "taken_at"@) {
                Some(t) => Some((u, o, t)),
                None => None,
            },
            None => None,
        },
        None => None,
    }
}

/// The photo list of the payload text: the text parses, and its `photoData`
/// member is an array.
pub open spec fn spec_photo_list(s: Seq<char>) -> Option<Seq<serde_json::Value>> {
    if json_ok(s) {
        match json_member(json_value_of(s), "photoData"@) {
            Some(list) => json_elements(list),
            None => None,
        }
    } else {
        None
    }
}

/// The payload decodes: it has a photo list and every element of the list
/// carries the three string fields.
pub open spec fn decode_ok(s: Seq<char>) -> bool {
    spec_photo_list(s) matches Some(items) && forall|i: int|
        0 <= i < items.len() ==> (#[trigger] record_fields(items[i])) is Some
}

/// This photo holds exactly the record's three fields.
pub open spec fn photo_matches(p: Photo, v: serde_json::Value) -> bool {
    record_fields(v) matches Some(f) && p.url@ == f.0 && p.original_url@ == f.1 && p.taken_at@
        == f.2
}

/// The string under `key`, or `MalformedPayload` if the member is absent or
/// not a JSON string.
fn string_field(v: &serde_json::Value, key: &str) -> (r: Result<String, PipelineError>)
    ensures
        r is Ok <==> member_text(*v, key@) is Some,
        r matches Ok(s) ==> member_text(*v, key@) == Some(s@),
        r matches Err(e) ==> e == PipelineError::MalformedPayload,
{
    match json_get(v, key) {
        Some(member) => match json_as_str(member) {
            Some(s) => Ok(s.to_owned()),
            None => Err(PipelineError::MalformedPayload),
        },
        None => Err(PipelineError::MalformedPayload),
    }
}

/// Decodes the payload into the gallery. Succeeds exactly when the payload
/// decodes — valid JSON, a `photoData` array, three string fields per
/// record — and then returns exactly those records' fields, in the page's
/// declaration order. The only error is `MalformedPayload`.
pub fn decode(payload: &str) -> (r: Result<Gallery, PipelineError>)
    ensures
        r is Ok <==> decode_ok(payload@),
        r matches Ok(g) ==> spec_photo_list(payload@) matches Some(items) && g.photos@.len()
            == items.len() && forall|i: int|
            0 <= i < items.len() ==> photo_matches(#[trigger] g.photos@[i], items[i]),
        r matches Err(e) ==> e == PipelineError::MalformedPayload,
{
    let root = match parse_json(payload) {
        Ok(v) => v,
        Err(_) => {
            return Err(PipelineError::MalformedPayload);
        },
    };
    let list = match json_get(&root, "photoData") {
        Some(l) => l,
        None => {
            return Err(PipelineError::MalformedPayload);
        },
    };
    let items = match json_as_array(list) {
        Some(a) => a,
        None => {
            return Err(PipelineError::MalformedPayload);
        },
    };
    proof {
        assert(spec_photo_list(payload@) == Some(items@));
    }
    let n = items.len();
    let mut photos: Vec<Photo> = Vec::new();
    let mut i: usize = 0;
    while i < n
        invariant
            n == items@.len(),
            i <= n,
            spec_photo_list(payload@) == Some(items@),
            photos@.len() == i,
            forall|j: int| 0 <= j < i ==> photo_matches(#[trigger] photos@[j], items@[j]),
        decreases n - i,
    {
        let item = &items[i];
        let url = match string_field(item, "url") {
            Ok(s) => s,
            Err(e) => {
                proof {
                    assert(record_fields(items@[i as int]) is None);
                }
                return Err(e);
            },
        };
        let original_url = match string_field(item, "original_url") {
            Ok(s) => s,
            Err(e) => {
                proof {
                    assert(record_fields(items@[i as int]) is None);
                }
                return Err(e);
            },
        };
        let taken_at = match string_field(item, "taken_at") {
            Ok(s) => s,
            Err(e) => {
                proof {
                    assert(record_fields(items@[i as int]) is None);
                }
                return Err(e);
            },
        };
        proof {
            assert(record_fields(items@[i as int]) == Some((url@, original_url@, taken_at@)));
        }
        photos.push(Photo { url, original_url, taken_at });
        i = i + 1;
    }
    proof {
        assert forall|k: int| 0 <= k < items@.len() implies (#[trigger] record_fields(
            items@[k],
        )) is Some by {
            assert(photo_matches(photos@[k], items@[k]));
        }
    }
    Ok(Gallery { photos })
}

} // verus!
