use vstd::prelude::*;

pub mod aws_config;
pub mod aws_secret;
pub mod decode;
pub mod table;
pub mod value;

mod dotenv;
mod local;

pub use dotenv::DotEnv;
pub use local::Local;
pub use value::FromEnvStr;

verus! {

/// What reading a value can fail with.
#[derive(Debug, Clone, Copy, PartialEq, Eq, Structural)]
pub enum Error {
    /// The backend holds text for the key, but it does not read as a value of the wanted type.
    InvalidValue,
}

/// The text that `str::to_uppercase` gives for `text`.
pub uninterp spec fn upper_case(text: Seq<char>) -> Seq<char>;

/// Every character is ASCII.
pub open spec fn is_ascii_text(text: Seq<char>) -> bool {
    forall|i: int| 0 <= i < text.len() ==> (#[trigger] text[i]) as u32 <= 0x7f
}

/// An ASCII lower-case letter as upper case; any other character as it is.
pub open spec fn ascii_upper_char(c: char) -> char {
    if 'a' <= c && c <= 'z' {
        ((c as u32) - 32) as char
    } else {
        c
    }
}

/// An ASCII upper-case letter as lower case; any other character as it is.
pub open spec fn ascii_lower_char(c: char) -> char {
    if 'A' <= c && c <= 'Z' {
        ((c as u32) + 32) as char
    } else {
        c
    }
}

/// The text with its ASCII letters in upper case.
pub open spec fn ascii_upper(text: Seq<char>) -> Seq<char> {
    Seq::new(text.len(), |i: int| ascii_upper_char(text[i]))
}

/// The text with its ASCII letters in lower case.
pub open spec fn ascii_lower(text: Seq<char>) -> Seq<char> {
    Seq::new(text.len(), |i: int| ascii_lower_char(text[i]))
}

/// The name under which a case-ignoring backend looks up `key`: its upper-case
/// form, which for ASCII text is the text with its ASCII letters in upper case.
pub open spec fn key_name(key: Seq<char>) -> Seq<char> {
    if is_ascii_text(key) {
        ascii_upper(key)
    } else {
        upper_case(key)
    }
}

/// Calls `str::to_uppercase`. Its result follows Unicode's upper-case mapping
/// of each character, so it depends on the text alone; the contract names it.
/// That mapping takes the ASCII letters `a`..`z` to `A`..`Z` and keeps every
/// other ASCII character, which the contract states for ASCII text.
#[verifier::external_body]
pub(crate) fn to_uppercase(text: &str) -> (upper: String)
    ensures
        upper@ == upper_case(text@),
        is_ascii_text(text@) ==> upper@ == ascii_upper(text@),
{
    text.to_uppercase()
}

/// An optional value, taken by its view.
pub open spec fn opt_view<T: View>(o: Option<T>) -> Option<T::V> {
    match o {
        Some(v) => Some(v@),
        None => None,
    }
}

/// What `get` gives for a key whose raw text is `raw`.
pub open spec fn get_spec<T: FromEnvStr>(raw: Option<Seq<char>>) -> Option<T::V> {
    match raw {
        Some(text) => T::text_value(text),
        None => None,
    }
}

/// What `try_get` gives for a key whose raw text is `raw`: nothing for a missing
/// key, the value for readable text, and `InvalidValue` for unreadable text.
pub open spec fn try_get_spec<T: FromEnvStr>(raw: Option<Seq<char>>) -> Result<Option<T::V>, Error> {
    match raw {
        Some(text) => match T::text_value(text) {
            Some(v) => Ok(Some(v)),
            None => Err(Error::InvalidValue),
        },
        None => Ok(None),
    }
}

/// The outcome of `try_get`, taken by the view of the value.
pub open spec fn try_get_view<T: View>(r: Result<Option<T>, Error>) -> Result<Option<T::V>, Error> {
    match r {
        Ok(o) => Ok(opt_view(o)),
        Err(e) => Err(e),
    }
}

/// What `get_or` gives: the value read, else the default.
pub open spec fn get_or_spec<T: FromEnvStr>(raw: Option<Seq<char>>, default: T::V) -> T::V {
    match get_spec::<T>(raw) {
        Some(v) => v,
        None => default,
    }
}

/// What `try_get_or` gives: the value when `try_get` found one, else the default.
pub open spec fn try_get_or_spec<T: FromEnvStr>(raw: Option<Seq<char>>, default: T::V) -> T::V {
    match try_get_spec::<T>(raw) {
        Ok(Some(v)) => v,
        _ => default,
    }
}

/// `try_get` finds a value exactly where `get` does, and the same value; where
/// `get` finds none, `try_get` gives `Ok(None)` for a missing key and
/// `Err(InvalidValue)` for text that does not read as a `T`.
pub proof fn law_try_get_agrees_with_get<T: FromEnvStr>(raw: Option<Seq<char>>)
    ensures
        try_get_spec::<T>(raw) == match get_spec::<T>(raw) {
            Some(v) => Ok(Some(v)),
            None => if raw is Some {
                Err(Error::InvalidValue)
            } else {
                Ok(None)
            },
        },
{
}

/// The typed reads take the whole raw text: a key holding text reads as that
/// text does, a `String` read gives the text unchanged whatever it holds, and
/// an integer read of a number's decimal text gives the number.
pub proof fn law_reads_take_the_whole_text<T: FromEnvStr>(text: Seq<char>, default: Seq<char>, n: int)
    ensures
        get_spec::<T>(Some(text)) == T::text_value(text),
        get_spec::<String>(Some(text)) == Some(text),
        try_get_spec::<String>(Some(text)) == Ok::<Option<Seq<char>>, Error>(Some(text)),
        get_or_spec::<String>(Some(text), default) == text,
        try_get_or_spec::<String>(Some(text), default) == text,
        i64::MIN <= n <= i64::MAX ==> get_spec::<i64>(Some(value::decimal_text(n))) == Some(
            n as i64,
        ),
        0 <= n <= u64::MAX ==> get_spec::<u64>(Some(value::decimal_text(n))) == Some(n as u64),
{
    value::law_integer_text_round_trip(n);
}

/// `try_get_or` and `get_or` give the same value for every key and default.
pub proof fn law_try_get_or_is_get_or<T: FromEnvStr>(raw: Option<Seq<char>>, default: T::V)
    ensures
        try_get_or_spec::<T>(raw, default) == get_or_spec::<T>(raw, default),
{
}

/// A key that holds no text gives the default, through both `get_or` and
/// `try_get_or`.
pub proof fn law_missing_key_gives_default<T: FromEnvStr>(default: T::V)
    ensures
        get_or_spec::<T>(None, default) == default,
        try_get_or_spec::<T>(None, default) == default,
{
}

/// The lower-case and upper-case forms of an ASCII key have the key's name.
pub proof fn lemma_ascii_case_forms_share_name(key: Seq<char>)
    requires
        is_ascii_text(key),
    ensures
        key_name(ascii_lower(key)) == key_name(key),
        key_name(ascii_upper(key)) == key_name(key),
{
    assert forall|i: int| 0 <= i < key.len() implies (#[trigger] ascii_lower(key)[i]) as u32 <= 0x7f
        && ascii_upper(ascii_lower(key))[i] == ascii_upper(key)[i] by {
        let c = key[i];
        if 'A' <= c && c <= 'Z' {
            assert(((c as u32) + 32) as char as u32 == c as u32 + 32);
        }
    }
    assert forall|i: int| 0 <= i < key.len() implies (#[trigger] ascii_upper(key)[i]) as u32 <= 0x7f
        && ascii_upper(ascii_upper(key))[i] == ascii_upper(key)[i] by {
        let c = key[i];
        if 'a' <= c && c <= 'z' {
            assert(((c as u32) - 32) as char as u32 == c as u32 - 32);
        }
    }
    assert(ascii_upper(ascii_lower(key)) =~= ascii_upper(key));
    assert(ascii_upper(ascii_upper(key)) =~= ascii_upper(key));
}

/// A backend of named text values. A backend says which raw text it holds
/// for a key; every typed read goes through that text.
pub trait Environment {
    /// The raw text that the backend holds for `key`.
    spec fn raw_value(&self, key: Seq<char>) -> Option<Seq<char>>;

    /// The raw text held for `key`.
    fn get_raw(&self, key: &str) -> (text: Option<String>)
        ensures
            opt_view(text) == self.raw_value(key@),
    ;

    /// The value held for `key`, when it is there and reads as a `T`.
    fn get<T: FromEnvStr>(&self, key: &str) -> (value: Option<T>)
        ensures
            opt_view(value) == get_spec::<T>(self.raw_value(key@)),
    {
        match self.get_raw(key) {
            Some(text) => T::from_env_str(text.as_str()),
            None => None,
        }
    }

    /// The value held for `key`: `Ok(None)` when there is none, and
    /// `Err(InvalidValue)` when its text does not read as a `T`.
    fn try_get<T: FromEnvStr>(&self, key: &str) -> (value: Result<Option<T>, Error>)
        ensures
            try_get_view(value) == try_get_spec::<T>(self.raw_value(key@)),
    {
        match self.get::<String>(key) {
            Some(text) => match T::from_env_str(text.as_str()) {
                Some(v) => Ok(Some(v)),
                None => Err(Error::InvalidValue),
            },
            None => Ok(None),
        }
    }

    /// The value that `try_get` finds for `key`, else `default`.
    fn try_get_or<T: FromEnvStr>(&self, key: &str, default: T) -> (value: T)
        ensures
            value@ == try_get_or_spec::<T>(self.raw_value(key@), default@),
            !(try_get_spec::<T>(self.raw_value(key@)) matches Ok(Some(_))) ==> value == default,
    {
        match self.try_get(key) {
            Ok(Some(v)) => v,
            _ => default,
        }
    }

    /// The value that `get` finds for `key`, else `default`.
    fn get_or<T: FromEnvStr>(&self, key: &str, default: T) -> (value: T)
        ensures
            value@ == get_or_spec::<T>(self.raw_value(key@), default@),
            get_spec::<T>(self.raw_value(key@)) is None ==> value == default,
    {
        match self.get(key) {
            Some(v) => v,
            None => default,
        }
    }
}

} // verus!
