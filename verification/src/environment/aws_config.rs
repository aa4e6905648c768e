use vstd::prelude::*;

use super::decode::json_object_entries;
use super::table::Table;
use super::Environment;

verus! {

/// A backend over the JSON object held in an AWS SSM parameter. Each key is
/// read as given, and its raw text is the value's compact JSON text.
pub struct AwsEnvironment {
    data: Table,
}

/// What building an `AwsEnvironment` can fail with.
#[derive(Debug)]
pub enum AwsEnvironmentError {
    /// The parameter could not be fetched; the text describes why.
    ConfigLoadError(String),
    /// The response held no parameter value.
    PullParamError(String),
    /// The parameter value is not JSON; the text is the JSON parser's message.
    DeserError(String),
    /// The parameter value is JSON, but its root is not an object.
    JsonError(String),
}

/// How building from a parsed JSON root ends: an error with the parser's text
/// for text that is not JSON, an error for a root that is not an object, else the object's entries.
pub open spec fn config_outcome(
    root: Result<Option<Seq<(Seq<char>, Seq<char>)>>, Seq<char>>,
    r: Result<AwsEnvironment, AwsEnvironmentError>,
) -> bool {
    match root {
        Err(message) => r matches Err(AwsEnvironmentError::DeserError(x)) && x@ == message,
        Ok(None) => r matches Err(AwsEnvironmentError::JsonError(m))
            && m@ == "Root json object not object(Map<String, Value>)."@,
        Ok(Some(entries)) => r matches Ok(env) && env@ == super::table::text_map(entries),
    }
}

/// Building from a JSON object keeps every entry: each name of the object
/// is held, and its raw text is the value of the last entry of that name,
/// whole.
pub proof fn law_parameter_object_holds_every_entry(
    entries: Seq<(Seq<char>, Seq<char>)>,
    r: Result<AwsEnvironment, AwsEnvironmentError>,
)
    requires
        config_outcome(Ok(Some(entries)), r),
    ensures
        r is Ok,
        forall|i: int|
            0 <= i < entries.len() ==> (#[trigger] r->Ok_0.raw_value(entries[i].0)) is Some,
        forall|i: int|
            0 <= i < entries.len() && super::table::last_of_its_name(entries, i) ==> (
            #[trigger] r->Ok_0.raw_value(entries[i].0)) == Some(entries[i].1),
{
    assert forall|i: int| 0 <= i < entries.len() implies (#[trigger] r->Ok_0.raw_value(
        entries[i].0,
    )) is Some && (super::table::last_of_its_name(entries, i) ==> r->Ok_0.raw_value(
        entries[i].0,
    ) == Some(entries[i].1)) by {
        super::table::lemma_text_map_last(entries, i);
    }
}

impl AwsEnvironment {
    /// Builds the backend from the value of the SSM parameter that was
    /// fetched (`None` when the response held no parameter or no value).
    pub fn from_parameter_value(value: Option<String>) -> (r: Result<Self, AwsEnvironmentError>)
        ensures
            match value {
                None => r matches Err(AwsEnvironmentError::PullParamError(m))
                    && m@ == "Failed to pull paramter."@,
                Some(text) => config_outcome(super::decode::json_root_entries(text@), r),
            },
    {
        match value {
            None => Err(AwsEnvironmentError::PullParamError("Failed to pull paramter.".to_owned())),
            Some(text) => {
                let root = json_object_entries(text.as_str());
                Self::from_json_root(root)
            },
        }
    }

    /// Builds the backend from the outcome of parsing the parameter value:
    /// the parser's error text, `None` for a root that is not an object, or the root
    /// object's (name, compact JSON text) entries.
    pub fn from_json_root(root: Result<Option<Vec<(String, String)>>, String>) -> (r: Result<
        Self,
        AwsEnvironmentError,
    >)
        ensures
            config_outcome(super::decode::json_root_view(root), r),
    {
        match root {
            Err(e) => Err(AwsEnvironmentError::DeserError(e)),
            Ok(None) => Err(
                AwsEnvironmentError::JsonError(
                    "Root json object not object(Map<String, Value>).".to_owned(),
                ),
            ),
            Ok(Some(entries)) => Ok(AwsEnvironment { data: Table::from_pairs(&entries) }),
        }
    }
}

impl View for AwsEnvironment {
    type V = Map<Seq<char>, Seq<char>>;

    /// The compact JSON text of each value, by key.
    closed spec fn view(&self) -> Map<Seq<char>, Seq<char>> {
        self.data@
    }
}

impl Environment for AwsEnvironment {
    /// The compact JSON text of the value under the key, as given.
    open spec fn raw_value(&self, key: Seq<char>) -> Option<Seq<char>> {
        self@.get(key)
    }

    fn get_raw(&self, key: &str) -> (text: Option<String>) {
        let name = key.to_owned();
        self.data.get(&name)
    }
}

} // verus!
