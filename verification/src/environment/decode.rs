use vstd::prelude::*;

use base64::prelude::{Engine, BASE64_STANDARD};

verus! {

/// What `serde_json::from_str::<serde_json::Value>` makes of `text`: the
/// error's text when the text is not one JSON value; otherwise `None` when
/// the root value is not an object, and else the root object's entries, in
/// the map's order, each with its value in serde_json's compact text form.
pub uninterp spec fn json_root_entries(text: Seq<char>) -> Result<Option<Seq<(Seq<char>, Seq<char>)>>, Seq<char>>;

/// The outcome of parsing JSON, taken as text.
pub open spec fn json_root_view(root: Result<Option<Vec<(String, String)>>, String>) -> Result<Option<Seq<(Seq<char>, Seq<char>)>>, Seq<char>> {
    match root {
        Ok(o) => Ok(opt_pairs_view(o)),
        Err(e) => Err(e@),
    }
}

/// Optional owned pairs, taken as text pairs.
pub open spec fn opt_pairs_view(o: Option<Vec<(String, String)>>) -> Option<Seq<(Seq<char>, Seq<char>)>> {
    match o {
        Some(v) => Some(super::table::pairs_view(v@)),
        None => None,
    }
}

/// Parses `text` with `serde_json::from_str` into a `serde_json::Value`, tells
/// an object root from the others with `Value::as_object`, and lists the
/// object's entries with each value written back by its `Display`; on a
/// parse error, gives the error's text by its `Display`. Both depend on the
/// text alone; the contract names them.
#[verifier::external_body]
pub(crate) fn json_object_entries(text: &str) -> (entries: Result<Option<Vec<(String, String)>>, String>)
    ensures
        json_root_view(entries) == json_root_entries(text@),
{
    let value: serde_json::Value = serde_json::from_str(text).map_err(|e| e.to_string())?;
    Ok(value.as_object().map(|map| map.iter().map(|(k, v)| (k.clone(), v.to_string())).collect()))
}

/// What the standard base64 engine makes of `input`: the decoded bytes, or
/// the text of its `DecodeError`.
pub uninterp spec fn base64_standard(input: Seq<u8>) -> Result<Seq<u8>, Seq<char>>;

/// Calls `Engine::decode` on `base64::prelude::BASE64_STANDARD`; on failure,
/// gives the error's text by its `Display`. Both depend on the input alone;
/// the contract names them.
#[verifier::external_body]
pub(crate) fn decode_base64(input: &[u8]) -> (bytes: Result<Vec<u8>, String>)
    ensures
        match bytes {
            Ok(b) => base64_standard(input@) == Ok::<Seq<u8>, Seq<char>>(b@),
            Err(m) => base64_standard(input@) == Err::<Seq<u8>, Seq<char>>(m@),
        },
{
    BASE64_STANDARD.decode(input).map_err(|e| e.to_string())
}

/// The text of the `FromUtf8Error` that `String::from_utf8` gives for `bytes`.
pub uninterp spec fn utf8_error_text(bytes: Seq<u8>) -> Seq<char>;

/// Calls `String::from_utf8`, which std documents as succeeding exactly on
/// valid UTF-8, and gives the error's text by its `Display` on failure. The
/// contract states the outcome with vstd's UTF-8 model and names the error's
/// text, which depends on the bytes alone.
#[verifier::external_body]
pub(crate) fn utf8_text(bytes: Vec<u8>) -> (text: Result<String, String>)
    ensures
        match text {
            Ok(s) => vstd::utf8::valid_utf8(bytes@) && s@ == vstd::utf8::decode_utf8(bytes@),
            Err(m) => !vstd::utf8::valid_utf8(bytes@) && m@ == utf8_error_text(bytes@),
        },
{
    String::from_utf8(bytes).map_err(|e| e.to_string())
}

} // verus!
