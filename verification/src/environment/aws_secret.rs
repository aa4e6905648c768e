use vstd::prelude::*;

use super::decode::{decode_base64, json_object_entries, utf8_text};
use super::table::Table;
use super::Environment;

verus! {

/// A backend over the JSON object held in an AWS Secrets Manager secret.
/// Each key is read as given, and its raw text is the value's compact JSON
/// text.
pub struct AwsSecret {
    data: Table,
}

/// What building an `AwsSecret` can fail with.
#[derive(Debug)]
pub enum AwsSecretError {
    /// The secret could not be fetched; the text describes why.
    SecretLoadError(String),
    /// The secret's binary form is not standard base64; the decoder's message.
    Base64DecodeError(String),
    /// The decoded binary form is not UTF-8; the decoder's message.
    Utf8DecodeError(String),
    /// The secret could not be pulled from the response.
    PullSecretError(String),
    /// The secret's text is not JSON; the JSON parser's message.
    DeserError(String),
    /// The secret's text is JSON, but its root is not an object.
    JsonError(String),
    /// The response held the secret in no known form.
    UnknownError(String),
}

/// How building from a parsed JSON root ends: an error with the parser's text
/// for text that is not JSON, an error for a root that is not an object, else the object's entries.
pub open spec fn secret_outcome(
    root: Result<Option<Seq<(Seq<char>, Seq<char>)>>, Seq<char>>,
    r: Result<AwsSecret, AwsSecretError>,
) -> bool {
    match root {
        Err(message) => r matches Err(AwsSecretError::DeserError(x)) && x@ == message,
        Ok(None) => r matches Err(AwsSecretError::JsonError(m))
            && m@ == "Root json object not object(Map<String, Value>)."@,
        Ok(Some(entries)) => r matches Ok(env) && env@ == super::table::text_map(entries),
    }
}

/// How building from a secret ends. The text form is used when present;
/// else the binary form is decoded from standard base64 and then as UTF-8,
/// each failure giving its decoder's error text; with neither, the text is
/// empty. That text is then parsed as JSON.
pub open spec fn from_secret_outcome(
    secret_string: Option<Seq<char>>,
    secret_binary: Option<Seq<u8>>,
    r: Result<AwsSecret, AwsSecretError>,
) -> bool {
    match secret_string {
        Some(text) => secret_outcome(super::decode::json_root_entries(text), r),
        None => match secret_binary {
            Some(encoded) => match super::decode::base64_standard(encoded) {
                Err(message) => r matches Err(AwsSecretError::Base64DecodeError(x)) && x@
                    == message,
                Ok(bytes) => if vstd::utf8::valid_utf8(bytes) {
                    secret_outcome(
                        super::decode::json_root_entries(vstd::utf8::decode_utf8(bytes)),
                        r,
                    )
                } else {
                    r matches Err(AwsSecretError::Utf8DecodeError(x)) && x@
                        == super::decode::utf8_error_text(bytes)
                },
            },
            None => secret_outcome(super::decode::json_root_entries(Seq::empty()), r),
        },
    }
}

/// When the secret has a text form, its binary form plays no part.
pub proof fn law_secret_text_form_ignores_binary(
    text: Seq<char>,
    binary: Option<Seq<u8>>,
    other_binary: Option<Seq<u8>>,
    r: Result<AwsSecret, AwsSecretError>,
)
    ensures
        from_secret_outcome(Some(text), binary, r) == from_secret_outcome(
            Some(text),
            other_binary,
            r,
        ),
{
}

/// A binary form that decodes to UTF-8 text reads as that text does in the
/// text form.
pub proof fn law_secret_binary_reads_as_its_text(
    encoded: Seq<u8>,
    r: Result<AwsSecret, AwsSecretError>,
)
    requires
        super::decode::base64_standard(encoded) is Ok,
        vstd::utf8::valid_utf8(super::decode::base64_standard(encoded)->Ok_0),
    ensures
        from_secret_outcome(None, Some(encoded), r) == from_secret_outcome(
            Some(vstd::utf8::decode_utf8(super::decode::base64_standard(encoded)->Ok_0)),
            None,
            r,
        ),
{
}

/// Building from a JSON object keeps every entry: each name of the object
/// is held, and its raw text is the value of the last entry of that name,
/// whole.
pub proof fn law_secret_object_holds_every_entry(
    entries: Seq<(Seq<char>, Seq<char>)>,
    r: Result<AwsSecret, AwsSecretError>,
)
    requires
        secret_outcome(Ok(Some(entries)), r),
    ensures
        r is Ok,
        forall|i: int|
            0 <= i < entries.len() ==> (#[trigger] r->Ok_0.raw_value(entries[i].0)) is Some,
        forall|i: int|
            0 <= i < entries.len() && super::table::last_of_its_name(entries, i) ==> (
            #[trigger] r->Ok_0.raw_value(entries[i].0)) == Some(entries[i].1),
{
    assert forall|i: int| 0 <= i < entries.len() implies (#[trigger] r->Ok_0.raw_value(
        entries[i].0,
    )) is Some && (super::table::last_of_its_name(entries, i) ==> r->Ok_0.raw_value(
        entries[i].0,
    ) == Some(entries[i].1)) by {
        super::table::lemma_text_map_last(entries, i);
    }
}

impl AwsSecret {
    /// Builds the backend from the secret that was fetched: its text form,
    /// if the response held one, and its binary form, if it held one.
    pub fn from_secret_value(secret_string: Option<String>, secret_binary: Option<Vec<u8>>) -> (r:
        Result<Self, AwsSecretError>)
        ensures
            from_secret_outcome(
                super::opt_view(secret_string),
                super::opt_view(secret_binary),
                r,
            ),
    {
        let mut maybe_raw_secret: Option<String> = Some(String::new());
        if let Some(text) = secret_string {
            maybe_raw_secret = Some(text);
        } else if let Some(encoded) = secret_binary {
            let decoded = match decode_base64(encoded.as_slice()) {
                Ok(bytes) => bytes,
                Err(message) => {
                    return Err(AwsSecretError::Base64DecodeError(message));
                },
            };
            let text = match utf8_text(decoded) {
                Ok(text) => text,
                Err(message) => {
                    return Err(AwsSecretError::Utf8DecodeError(message));
                },
            };
            maybe_raw_secret = Some(text);
        }
        let raw_secret = match maybe_raw_secret {
            Some(text) => text,
            None => {
                return Err(
                    AwsSecretError::UnknownError(
                        "Retrieved secret neither Blol nor &str.".to_owned(),
                    ),
                );
            },
        };
        let root = json_object_entries(raw_secret.as_str());
        Self::from_json_root(root)
    }

    /// Builds the backend from the outcome of parsing the secret's text: the
    /// parser's error text, `None` for a root that is not an object, or the
    /// root object's (name, compact JSON text) entries.
    pub fn from_json_root(root: Result<Option<Vec<(String, String)>>, String>) -> (r: Result<
        Self,
        AwsSecretError,
    >)
        ensures
            secret_outcome(super::decode::json_root_view(root), r),
    {
        match root {
            Err(e) => Err(AwsSecretError::DeserError(e)),
            Ok(None) => Err(
                AwsSecretError::JsonError("Root json object not object(Map<String, Value>).".to_owned()),
            ),
            Ok(Some(entries)) => Ok(AwsSecret { data: Table::from_pairs(&entries) }),
        }
    }
}

impl View for AwsSecret {
    type V = Map<Seq<char>, Seq<char>>;

    /// The compact JSON text of each value, by key.
    closed spec fn view(&self) -> Map<Seq<char>, Seq<char>> {
        self.data@
    }
}

impl Environment for AwsSecret {
    /// The compact JSON text of the value under the key, as given.
    open spec fn raw_value(&self, key: Seq<char>) -> Option<Seq<char>> {
        self@.get(key)
    }

    fn get_raw(&self, key: &str) -> (text: Option<String>) {
        let name = key.to_owned();
        self.data.get(&name)
    }
}

} // verus!
