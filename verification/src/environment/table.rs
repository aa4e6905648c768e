use vstd::prelude::*;

verus! {

/// The text pairs that a list of owned (name, value) entries stands for.
pub open spec fn pairs_view(entries: Seq<(String, String)>) -> Seq<(Seq<char>, Seq<char>)> {
    Seq::new(entries.len(), |i: int| (entries[i].0@, entries[i].1@))
}

/// The map that a list of (name, value) pairs denotes, read front to back:
/// a later pair for a name replaces an earlier one.
pub open spec fn text_map(pairs: Seq<(Seq<char>, Seq<char>)>) -> Map<Seq<char>, Seq<char>>
    decreases pairs.len(),
{
    if pairs.len() == 0 {
        Map::empty()
    } else {
        text_map(pairs.drop_last()).insert(pairs.last().0, pairs.last().1)
    }
}

/// No name occurs twice among the pairs.
pub open spec fn names_distinct(pairs: Seq<(Seq<char>, Seq<char>)>) -> bool {
    forall|i: int, j: int| 0 <= i < j < pairs.len() ==> pairs[i].0 != pairs[j].0
}

/// A name is in the map exactly when some pair carries it.
pub proof fn lemma_text_map_dom(pairs: Seq<(Seq<char>, Seq<char>)>, name: Seq<char>)
    ensures
        text_map(pairs).contains_key(name) <==> exists|i: int|
            0 <= i < pairs.len() && #[trigger] pairs[i].0 == name,
    decreases pairs.len(),
{
    if pairs.len() > 0 {
        let front = pairs.drop_last();
        lemma_text_map_dom(front, name);
        if text_map(front).contains_key(name) {
            let i = choose|i: int| 0 <= i < front.len() && #[trigger] front[i].0 == name;
            assert(pairs[i].0 == name);
        }
        if exists|i: int| 0 <= i < pairs.len() && #[trigger] pairs[i].0 == name {
            let i = choose|i: int| 0 <= i < pairs.len() && #[trigger] pairs[i].0 == name;
            if i < pairs.len() - 1 {
                assert(front[i].0 == name);
            }
        }
    }
}

/// With distinct names, each pair's value is what the map gives for its name.
pub proof fn lemma_text_map_at(pairs: Seq<(Seq<char>, Seq<char>)>, i: int)
    requires
        names_distinct(pairs),
        0 <= i < pairs.len(),
    ensures
        text_map(pairs).contains_key(pairs[i].0),
        text_map(pairs)[pairs[i].0] == pairs[i].1,
    decreases pairs.len(),
{
    if i < pairs.len() - 1 {
        let front = pairs.drop_last();
        lemma_text_map_at(front, i);
        assert(pairs.last().0 != pairs[i].0);
    }
}

/// Replacing the pair of a name that occurs once updates the map at that name.
pub proof fn lemma_text_map_update(
    pairs: Seq<(Seq<char>, Seq<char>)>,
    i: int,
    pair: (Seq<char>, Seq<char>),
)
    requires
        names_distinct(pairs),
        0 <= i < pairs.len(),
        pair.0 == pairs[i].0,
    ensures
        text_map(pairs.update(i, pair)) == text_map(pairs).insert(pair.0, pair.1),
    decreases pairs.len(),
{
    let updated = pairs.update(i, pair);
    let front = pairs.drop_last();
    if i == pairs.len() - 1 {
        assert(updated.drop_last() =~= front);
        assert(text_map(updated) =~= text_map(pairs).insert(pair.0, pair.1));
    } else {
        assert(updated.drop_last() =~= front.update(i, pair));
        lemma_text_map_update(front, i, pair);
        assert(pairs.last().0 != pair.0);
        assert(text_map(updated) =~= text_map(pairs).insert(pair.0, pair.1));
    }
}

/// No later pair carries the name of pair `i`.
pub open spec fn last_of_its_name(pairs: Seq<(Seq<char>, Seq<char>)>, i: int) -> bool {
    forall|j: int| i < j < pairs.len() ==> pairs[j].0 != pairs[i].0
}

/// The map holds the name of every pair, and for the last pair of a name,
/// that pair's value.
pub proof fn lemma_text_map_last(pairs: Seq<(Seq<char>, Seq<char>)>, i: int)
    requires
        0 <= i < pairs.len(),
    ensures
        text_map(pairs).contains_key(pairs[i].0),
        last_of_its_name(pairs, i) ==> text_map(pairs)[pairs[i].0] == pairs[i].1,
    decreases pairs.len(),
{
    lemma_text_map_dom(pairs, pairs[i].0);
    if i < pairs.len() - 1 {
        let front = pairs.drop_last();
        lemma_text_map_last(front, i);
        if last_of_its_name(pairs, i) {
            assert(pairs.last().0 != pairs[i].0);
            assert(last_of_its_name(front, i));
        }
    }
}

/// A table of text values keyed by text names; each name is held once.
pub struct Table {
    entries: Vec<(String, String)>,
}

impl View for Table {
    type V = Map<Seq<char>, Seq<char>>;

    closed spec fn view(&self) -> Map<Seq<char>, Seq<char>> {
        text_map(pairs_view(self.entries@))
    }
}

impl Table {
    /// Each name is held once.
    #[verifier::type_invariant]
    closed spec fn names_held_once(&self) -> bool {
        names_distinct(pairs_view(self.entries@))
    }

    /// An empty table.
    pub fn new() -> (table: Self)
        ensures
            table@ == Map::<Seq<char>, Seq<char>>::empty(),
    {
        proof {
            assert(pairs_view(Seq::<(String, String)>::empty()) =~= Seq::empty());
        }
        Table { entries: Vec::new() }
    }

    /// The table that the pairs denote, read front to back: for a name that
    /// occurs more than once, the last value is held.
    pub fn from_pairs(pairs: &Vec<(String, String)>) -> (table: Self)
        ensures
            table@ == text_map(pairs_view(pairs@)),
    {
        let mut table = Table::new();
        let ghost all = pairs_view(pairs@);
        let mut i: usize = 0;
        while i < pairs.len()
            invariant
                i <= pairs@.len(),
                all == pairs_view(pairs@),
                table@ == text_map(all.take(i as int)),
            decreases pairs@.len() - i,
        {
            let name = pairs[i].0.clone();
            let value = pairs[i].1.clone();
            table.insert(name, value);
            proof {
                assert(all.take(i + 1).drop_last() =~= all.take(i as int));
            }
            i = i + 1;
        }
        proof {
            assert(all.take(pairs@.len() as int) =~= all);
        }
        table
    }

    /// The position of `name` among the entries, if it is there.
    fn position(entries: &Vec<(String, String)>, name: &String) -> (found: Option<usize>)
        ensures
            match found {
                Some(i) => i < entries@.len() && entries@[i as int].0@ == name@,
                None => forall|i: int|
                    0 <= i < entries@.len() ==> #[trigger] entries@[i].0@ != name@,
            },
    {
        let mut i: usize = 0;
        while i < entries.len()
            invariant
                i <= entries@.len(),
                forall|j: int| 0 <= j < i ==> #[trigger] entries@[j].0@ != name@,
            decreases entries@.len() - i,
        {
            if entries[i].0 == *name {
                return Some(i);
            }
            i = i + 1;
        }
        None
    }

    /// The value held for `name`.
    pub fn get(&self, name: &String) -> (value: Option<String>)
        ensures
            match value {
                Some(v) => self@.contains_key(name@) && v@ == self@[name@],
                None => !self@.contains_key(name@),
            },
    {
        proof {
            use_type_invariant(self);
        }
        let ghost pairs = pairs_view(self.entries@);
        match Self::position(&self.entries, name) {
            Some(i) => {
                proof {
                    lemma_text_map_at(pairs, i as int);
                }
                Some(self.entries[i].1.clone())
            },
            None => {
                proof {
                    lemma_text_map_dom(pairs, name@);
                    if self@.contains_key(name@) {
                        let j = choose|j: int| 0 <= j < pairs.len() && #[trigger] pairs[j].0 == name@;
                        assert(self.entries@[j].0@ != name@);
                    }
                }
                None
            },
        }
    }

    /// Holds `value` for `name`, replacing what was held for it.
    pub fn insert(&mut self, name: String, value: String)
        ensures
            final(self)@ == old(self)@.insert(name@, value@),
    {
        proof {
            use_type_invariant(&*self);
        }
        let ghost pairs = pairs_view(self.entries@);
        let mut entries: Vec<(String, String)> = Vec::new();
        proof {
            assert(pairs_view(entries@) =~= Seq::empty());
        }
        std::mem::swap(&mut entries, &mut self.entries);
        match Self::position(&entries, &name) {
            Some(i) => {
                proof {
                    lemma_text_map_update(pairs, i as int, (name@, value@));
                }
                entries.set(i, (name, value));
                proof {
                    assert(pairs_view(entries@) =~= pairs.update(i as int, (name@, value@)));
                }
            },
            None => {
                entries.push((name, value));
                proof {
                    assert(pairs_view(entries@) =~= pairs.push((name@, value@)));
                    assert(pairs_view(entries@).drop_last() =~= pairs);
                }
            },
        }
        self.entries = entries;
    }
}

} // verus!
