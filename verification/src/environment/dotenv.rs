use vstd::prelude::*;

use super::table::Table;
use super::{to_uppercase, Environment};

verus! {

/// A backend over entries of a dotenv file, read by the upper-case form of the key.
pub struct DotEnv {
    data: Table,
}

impl DotEnv {
    /// A backend holding the given (name, value) pairs; for a name given more
    /// than once, the last value is held.
    pub fn from_entries(pairs: &Vec<(String, String)>) -> (env: Self)
        ensures
            env@ == super::table::text_map(super::table::pairs_view(pairs@)),
    {
        DotEnv { data: Table::from_pairs(pairs) }
    }
}

/// An ASCII key reads the same raw text as its lower-case and its upper-case
/// forms: the lookup ignores the case of ASCII keys.
pub proof fn law_dotenv_ignores_ascii_case(env: &DotEnv, key: Seq<char>)
    requires
        super::is_ascii_text(key),
    ensures
        env.raw_value(key) == env.raw_value(super::ascii_lower(key)),
        env.raw_value(key) == env.raw_value(super::ascii_upper(key)),
{
    super::lemma_ascii_case_forms_share_name(key);
}

/// For an ASCII key, the raw text is exactly the text held under the key's
/// name with its ASCII letters in upper case, whole.
pub proof fn law_dotenv_reads_held_text(env: &DotEnv, key: Seq<char>)
    requires
        super::is_ascii_text(key),
    ensures
        env.raw_value(key) == env@.get(super::ascii_upper(key)),
{
}

/// A backend built from pairs reads each pair of an upper-case ASCII name,
/// the last of that name, as that pair's whole value, under the name and
/// under its lower-case form.
pub proof fn law_dotenv_reads_each_pair(
    env: &DotEnv,
    pairs: Seq<(Seq<char>, Seq<char>)>,
    i: int,
)
    requires
        env@ == super::table::text_map(pairs),
        0 <= i < pairs.len(),
        super::table::last_of_its_name(pairs, i),
        super::is_ascii_text(pairs[i].0),
        super::ascii_upper(pairs[i].0) == pairs[i].0,
    ensures
        env.raw_value(pairs[i].0) == Some(pairs[i].1),
        env.raw_value(super::ascii_lower(pairs[i].0)) == Some(pairs[i].1),
{
    super::table::lemma_text_map_last(pairs, i);
    super::lemma_ascii_case_forms_share_name(pairs[i].0);
}

impl View for DotEnv {
    type V = Map<Seq<char>, Seq<char>>;

    /// The values held, by name.
    closed spec fn view(&self) -> Map<Seq<char>, Seq<char>> {
        self.data@
    }
}

impl Environment for DotEnv {
    /// The value held under the upper-case form of the key.
    open spec fn raw_value(&self, key: Seq<char>) -> Option<Seq<char>> {
        self@.get(super::key_name(key))
    }

    fn get_raw(&self, key: &str) -> (text: Option<String>) {
        let name = to_uppercase(key);
        self.data.get(&name)
    }
}

} // verus!
