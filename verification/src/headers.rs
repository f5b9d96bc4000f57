//! A header map: names with one value each, kept in the order in which the
//! names first came. Writing a name again replaces its value.

use crate::text::same_text;
use vstd::prelude::*;

verus! {

/// Header names and values as text.
pub type HeaderPairs = Seq<(Seq<char>, Seq<char>)>;

/// The map that a list of pairs stands for: where a name occurs more than
/// once, the later pair wins.
pub open spec fn map_of(pairs: HeaderPairs) -> Map<Seq<char>, Seq<char>>
    decreases pairs.len(),
{
    if pairs.len() == 0 {
        Map::empty()
    } else {
        map_of(pairs.drop_last()).insert(pairs.last().0, pairs.last().1)
    }
}

/// No name occurs twice.
pub open spec fn distinct_names(pairs: HeaderPairs) -> bool {
    forall|i: int, j: int| 0 <= i < j < pairs.len() ==> pairs[i].0 != pairs[j].0
}

/// The text of a list of owned pairs.
pub open spec fn pairs_text(entries: Seq<(String, String)>) -> HeaderPairs {
    Seq::new(entries.len(), |i: int| (entries[i].0@, entries[i].1@))
}

/// The names in the map are those in the list.
pub proof fn lemma_map_of_names(pairs: HeaderPairs, name: Seq<char>)
    ensures
        map_of(pairs).contains_key(name) <==> exists|i: int|
            0 <= i < pairs.len() && #[trigger] pairs[i].0 == name,
    decreases pairs.len(),
{
    if pairs.len() > 0 {
        let front = pairs.drop_last();
        lemma_map_of_names(front, name);
        if exists|i: int| 0 <= i < pairs.len() && #[trigger] pairs[i].0 == name {
            let i = choose|i: int| 0 <= i < pairs.len() && #[trigger] pairs[i].0 == name;
            if i < front.len() {
                assert(front[i].0 == name);
            }
        }
    }
}

/// Where no name occurs twice in a list, none does in the list without
/// its last pair.
proof fn lemma_distinct_front(pairs: HeaderPairs)
    requires
        distinct_names(pairs),
        pairs.len() > 0,
    ensures
        distinct_names(pairs.drop_last()),
{
}

/// Where no name occurs twice, each pair's value is the one the map holds.
pub proof fn lemma_map_of_value(pairs: HeaderPairs, i: int)
    requires
        distinct_names(pairs),
        0 <= i < pairs.len(),
    ensures
        map_of(pairs).contains_key(pairs[i].0),
        map_of(pairs)[pairs[i].0] == pairs[i].1,
    decreases pairs.len(),
{
    let front = pairs.drop_last();
    if i < pairs.len() - 1 {
        lemma_distinct_front(pairs);
        lemma_map_of_value(front, i);
    }
}

/// Replacing the value of the pair at `i` writes its name in the map.
pub proof fn lemma_map_of_update(pairs: HeaderPairs, i: int, value: Seq<char>)
    requires
        distinct_names(pairs),
        0 <= i < pairs.len(),
    ensures
        distinct_names(pairs.update(i, (pairs[i].0, value))),
        map_of(pairs.update(i, (pairs[i].0, value))) == map_of(pairs).insert(pairs[i].0, value),
    decreases pairs.len(),
{
    let name = pairs[i].0;
    let after = pairs.update(i, (name, value));
    let front = pairs.drop_last();
    if i == pairs.len() - 1 {
        assert(after.drop_last() =~= front);
    } else {
        lemma_distinct_front(pairs);
        lemma_map_of_update(front, i, value);
        assert(after.drop_last() =~= front.update(i, (name, value)));
    }
}

/// The position of `name` among `entries`.
fn find_name(entries: &Vec<(String, String)>, name: &str) -> (r: Option<usize>)
    ensures
        match r {
            Some(i) => i < entries.len() && pairs_text(entries@)[i as int].0 == name@,
            None => forall|j: int|
                0 <= j < entries.len() ==> #[trigger] pairs_text(entries@)[j].0 != name@,
        },
{
    let mut i: usize = 0;
    while i < entries.len()
        invariant
            i <= entries.len(),
            forall|j: int| 0 <= j < i ==> #[trigger] pairs_text(entries@)[j].0 != name@,
        decreases entries.len() - i,
    {
        if same_text(entries[i].0.as_str(), name) {
            return Some(i);
        }
        i += 1;
    }
    None
}

/// A header map.
#[derive(Debug)]
pub struct Headers {
    entries: Vec<(String, String)>,
}

impl View for Headers {
    type V = Map<Seq<char>, Seq<char>>;

    /// The value of each name.
    open spec fn view(&self) -> Map<Seq<char>, Seq<char>> {
        map_of(self.pairs())
    }
}

impl Clone for Headers {
    /// A map with the same pairs in the same order.
    fn clone(&self) -> (r: Headers)
        ensures
            r.pairs() == self.pairs(),
    {
        Headers { entries: self.to_vec() }
    }
}

impl Headers {
    #[verifier::type_invariant]
    spec fn names_are_distinct(self) -> bool {
        distinct_names(pairs_text(self.entries@))
    }

    /// Names and values in the order in which the names first came.
    pub closed spec fn pairs(&self) -> HeaderPairs {
        pairs_text(self.entries@)
    }

    /// A map without entries.
    pub fn new() -> (r: Headers)
        ensures
            r@ == Map::<Seq<char>, Seq<char>>::empty(),
            r.pairs() == HeaderPairs::empty(),
    {
        Headers { entries: Vec::new() }
    }

    /// The number of names.
    pub fn len(&self) -> (r: usize)
        ensures
            r == self.pairs().len(),
            distinct_names(self.pairs()),
    {
        proof {
            use_type_invariant(self);
        }
        self.entries.len()
    }

    /// The value of `name`, if the map holds the name.
    pub fn get(&self, name: &str) -> (r: Option<&str>)
        ensures
            match r {
                Some(value) => self@.contains_key(name@) && self@[name@] == value@,
                None => !self@.contains_key(name@),
            },
    {
        proof {
            use_type_invariant(self);
            lemma_map_of_names(self.pairs(), name@);
        }
        match find_name(&self.entries, name) {
            Some(i) => {
                proof {
                    lemma_map_of_value(self.pairs(), i as int);
                }
                Some(self.entries[i].1.as_str())
            },
            None => None,
        }
    }

    /// Whether the map holds `name`.
    pub fn contains(&self, name: &str) -> (r: bool)
        ensures
            r == self@.contains_key(name@),
    {
        self.get(name).is_some()
    }

    /// Writes `value` under `name`. A name already present keeps its place
    /// and gets the new value; a new name goes to the end.
    pub fn insert(&mut self, name: String, value: String)
        ensures
            final(self)@ == old(self)@.insert(name@, value@),
            distinct_names(final(self).pairs()),
            forall|i: int|
                0 <= i < old(self).pairs().len() && #[trigger] old(self).pairs()[i].0 == name@
                    ==> final(self).pairs() == old(self).pairs().update(i, (name@, value@)),
            (forall|i: int|
                0 <= i < old(self).pairs().len() ==> #[trigger] old(self).pairs()[i].0 != name@)
                ==> final(self).pairs() == old(self).pairs().push((name@, value@)),
    {
        proof {
            use_type_invariant(&*self);
        }
        let ghost before = self.pairs();
        let mut entries: Vec<(String, String)> = Vec::new();
        core::mem::swap(&mut self.entries, &mut entries);
        match find_name(&entries, name.as_str()) {
            Some(i) => {
                proof {
                    lemma_map_of_update(before, i as int, value@);
                }
                entries[i] = (name, value);
                assert(pairs_text(entries@) =~= before.update(i as int, (name@, value@)));
            },
            None => {
                entries.push((name, value));
                assert(pairs_text(entries@) =~= before.push((name@, value@)));
                assert(pairs_text(entries@).drop_last() =~= before);
            },
        }
        core::mem::swap(&mut self.entries, &mut entries);
    }

    /// Names and values as owned pairs, in order.
    pub fn to_vec(&self) -> (r: Vec<(String, String)>)
        ensures
            pairs_text(r@) == self.pairs(),
            distinct_names(self.pairs()),
    {
        proof {
            use_type_invariant(self);
        }
        let mut out: Vec<(String, String)> = Vec::new();
        let mut i: usize = 0;
        while i < self.entries.len()
            invariant
                i <= self.entries.len(),
                out.len() == i,
                forall|j: int| 0 <= j < i ==> out[j].0@ == self.entries[j].0@ && out[j].1@ == self.entries[j].1@,
            decreases self.entries.len() - i,
        {
            out.push((self.entries[i].0.clone(), self.entries[i].1.clone()));
            i += 1;
        }
        out
    }
}

} // verus!
