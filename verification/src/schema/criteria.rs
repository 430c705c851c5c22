//! The settings of the schema inference.

use vstd::prelude::*;

use crate::table::{find, lemma_lookup_first, lemma_lookup_put, lookup};

verus! {

/// The settings for one kind of dump.
pub struct Criteria {
    enum_split_filelds: Vec<(String, String)>,
    enum_string_max: usize,
}

/// The settings as plain mathematics.
pub struct CriteriaView {
    /// For the path of a field whose objects are told apart by a type
    /// field, the name of that type field.
    pub split: Map<Seq<char>, Seq<char>>,
    /// The largest number of distinct strings that still make an enum.
    pub enum_string_max: nat,
}

/// The table that a list of entries stands for.
pub open spec fn names(entries: Seq<(String, String)>) -> Map<Seq<char>, Seq<char>> {
    Map::new(
        |k: Seq<char>| lookup(entries, k).is_some(),
        |k: Seq<char>| lookup(entries, k).unwrap()@,
    )
}

/// Putting a value under a name into a list of entries puts it into the
/// table that the list stands for.
pub proof fn lemma_names_put(
    before: Seq<(String, String)>,
    after: Seq<(String, String)>,
    name: String,
    value: String,
)
    requires
        ({
            ||| exists|i: int|
                0 <= i < before.len() && before[i].0@ == name@ && after == before.update(
                    i,
                    (name, value),
                ) && forall|j: int| 0 <= j < i ==> (#[trigger] before[j]).0@ != name@
            ||| after == before.push((name, value)) && forall|j: int|
                0 <= j < before.len() ==> (#[trigger] before[j]).0@ != name@
        }),
    ensures
        names(after) == names(before).insert(name@, value@),
{
    if after == before.push((name, value)) && forall|j: int|
        0 <= j < before.len() ==> (#[trigger] before[j]).0@ != name@ {
        lemma_lookup_first(after, name@, before.len() as int);
    } else {
        let i = choose|i: int|
            0 <= i < before.len() && before[i].0@ == name@ && after == before.update(
                i,
                (name, value),
            ) && forall|j: int| 0 <= j < i ==> (#[trigger] before[j]).0@ != name@;
        lemma_lookup_first(after, name@, i);
    }
    assert forall|k: Seq<char>| k != name@ implies lookup(after, k) == lookup(before, k) by {
        lemma_lookup_put(before, after, name@, value, k);
    }
    assert(names(after) =~= names(before).insert(name@, value@));
}

/// The largest number of distinct strings that make an enum where nothing
/// else is set.
pub fn default_enum_string_max() -> (r: usize)
    ensures
        r == 127,
{
    127
}

impl View for Criteria {
    type V = CriteriaView;

    closed spec fn view(&self) -> CriteriaView {
        CriteriaView {
            split: names(self.enum_split_filelds@),
            enum_string_max: self.enum_string_max as nat,
        }
    }
}

impl Criteria {
    /// The settings where nothing is set: no field is split, and up to 127
    /// distinct strings make an enum.
    pub fn new() -> (r: Criteria)
        ensures
            r@ == (CriteriaView { split: Map::empty(), enum_string_max: 127 }),
    {
        Criteria::with_enum_string_max(default_enum_string_max())
    }

    /// The settings with no field split and the given limit for enums.
    pub fn with_enum_string_max(enum_string_max: usize) -> (r: Criteria)
        ensures
            r@ == (CriteriaView { split: Map::empty(), enum_string_max: enum_string_max as nat }),
    {
        let r = Criteria { enum_split_filelds: Vec::new(), enum_string_max };
        proof {
            assert(names(r.enum_split_filelds@) =~= Map::<Seq<char>, Seq<char>>::empty());
        }
        r
    }

    /// Sets that the objects of the field at the path `field_name` are told
    /// apart by their field `type_field`.
    pub fn add(&mut self, field_name: &str, type_field: &str)
        ensures
            final(self)@ == (CriteriaView {
                split: old(self)@.split.insert(field_name@, type_field@),
                enum_string_max: old(self)@.enum_string_max,
            }),
    {
        let name = field_name.to_owned();
        let value = type_field.to_owned();
        let ghost before = self.enum_split_filelds@;
        match find(&self.enum_split_filelds, field_name) {
            Some(i) => {
                self.enum_split_filelds.set(i, (name, value));
            },
            None => {
                self.enum_split_filelds.push((name, value));
            },
        }
        proof {
            lemma_names_put(before, self.enum_split_filelds@, name, value);
        }
    }

    /// The name of the type field by which the objects of the field at
    /// `field_path` are told apart, where that was set.
    pub fn is_split_enum(&self, field_path: &str) -> (r: Option<&str>)
        ensures
            match r {
                Some(t) => self@.split.contains_key(field_path@) && self@.split[field_path@]
                    == t@,
                None => !self@.split.contains_key(field_path@),
            },
    {
        match find(&self.enum_split_filelds, field_path) {
            Some(i) => Some(self.enum_split_filelds[i].1.as_str()),
            None => None,
        }
    }

    /// The largest number of distinct strings that still make an enum.
    pub fn enum_string_max(&self) -> (r: usize)
        ensures
            r == self@.enum_string_max,
    {
        self.enum_string_max
    }

    /// A copy of these settings.
    pub fn copy(&self) -> (r: Criteria)
        ensures
            r@ == self@,
    {
        let mut entries: Vec<(String, String)> = Vec::new();
        let mut i: usize = 0;
        while i < self.enum_split_filelds.len()
            invariant
                i <= self.enum_split_filelds@.len(),
                entries@ == self.enum_split_filelds@.subrange(0, i as int),
            decreases self.enum_split_filelds@.len() - i,
        {
            let name = self.enum_split_filelds[i].0.clone();
            let value = self.enum_split_filelds[i].1.clone();
            entries.push((name, value));
            i = i + 1;
            proof {
                assert(entries@ =~= self.enum_split_filelds@.subrange(0, i as int));
            }
        }
        proof {
            assert(self.enum_split_filelds@.subrange(0, i as int) =~= self.enum_split_filelds@);
        }
        Criteria { enum_split_filelds: entries, enum_string_max: self.enum_string_max }
    }
}

impl Default for Criteria {
    fn default() -> (r: Criteria)
        ensures
            r@ == (CriteriaView { split: Map::empty(), enum_string_max: 127 }),
    {
        Criteria::new()
    }
}

/// The settings of all kinds of dump, by the name of the kind.
pub struct Criterias(Vec<(String, Criteria)>);

impl View for Criterias {
    type V = Map<Seq<char>, CriteriaView>;

    closed spec fn view(&self) -> Map<Seq<char>, CriteriaView> {
        Map::new(
            |k: Seq<char>| lookup(self.0@, k).is_some(),
            |k: Seq<char>| lookup(self.0@, k).unwrap()@,
        )
    }
}

impl Criterias {
    /// Settings for no kind of dump.
    pub fn new() -> (r: Criterias)
        ensures
            r@ == Map::<Seq<char>, CriteriaView>::empty(),
    {
        let r = Criterias(Vec::new());
        proof {
            assert(r@ =~= Map::<Seq<char>, CriteriaView>::empty());
        }
        r
    }

    /// Sets the settings of the kind `target_name`.
    pub fn insert(&mut self, target_name: &str, criteria: Criteria)
        ensures
            final(self)@ == old(self)@.insert(target_name@, criteria@),
    {
        let name = target_name.to_owned();
        let ghost before = self.0@;
        let found = find(&self.0, target_name);
        match found {
            Some(i) => {
                self.0.set(i, (name, criteria));
            },
            None => {
                self.0.push((name, criteria));
            },
        }
        proof {
            let after = self.0@;
            match found {
                Some(i) => {
                    lemma_lookup_first(after, name@, i as int);
                },
                None => {
                    lemma_lookup_first(after, name@, before.len() as int);
                },
            }
            assert forall|k: Seq<char>| k != name@ implies lookup(after, k) == lookup(
                before,
                k,
            ) by {
                lemma_lookup_put(before, after, name@, criteria, k);
            }
            assert(self@ =~= old(self)@.insert(target_name@, criteria@));
        }
    }

    /// The settings of the kind `target_name`; those where nothing is set,
    /// where the kind has none.
    pub fn get(&self, target_name: &str) -> (r: Criteria)
        ensures
            r@ == if self@.contains_key(target_name@) {
                self@[target_name@]
            } else {
                CriteriaView { split: Map::empty(), enum_string_max: 127 }
            },
    {
        match find(&self.0, target_name) {
            Some(i) => self.0[i].1.copy(),
            None => Criteria::new(),
        }
    }
}

} // verus!
