//! A table from names to values, kept as a list of entries: the first entry
//! of a name is the one that counts.

use vstd::prelude::*;

use crate::text::str_eq;

verus! {

/// The value that `entries` holds for `key`: that of the first entry of that
/// name.
pub open spec fn lookup<V>(entries: Seq<(String, V)>, key: Seq<char>) -> Option<V>
    decreases entries.len(),
{
    if entries.len() == 0 {
        None
    } else if entries[0].0@ == key {
        Some(entries[0].1)
    } else {
        lookup(entries.drop_first(), key)
    }
}

/// The first entry of a name is what `lookup` finds.
pub proof fn lemma_lookup_first<V>(entries: Seq<(String, V)>, key: Seq<char>, i: int)
    requires
        0 <= i < entries.len(),
        entries[i].0@ == key,
        forall|j: int| 0 <= j < i ==> (#[trigger] entries[j]).0@ != key,
    ensures
        lookup(entries, key) == Some(entries[i].1),
    decreases entries.len(),
{
    if i > 0 {
        let rest = entries.drop_first();
        assert(entries[0].0@ != key);
        assert forall|j: int| 0 <= j < i - 1 implies (#[trigger] rest[j]).0@ != key by {
            assert(rest[j] == entries[j + 1]);
        }
        lemma_lookup_first(rest, key, i - 1);
    }
}

/// A name that no entry has is not found.
pub proof fn lemma_lookup_none<V>(entries: Seq<(String, V)>, key: Seq<char>)
    requires
        forall|j: int| 0 <= j < entries.len() ==> (#[trigger] entries[j]).0@ != key,
    ensures
        lookup(entries, key).is_none(),
    decreases entries.len(),
{
    if entries.len() > 0 {
        let rest = entries.drop_first();
        assert(entries[0].0@ != key);
        assert forall|j: int| 0 <= j < rest.len() implies (#[trigger] rest[j]).0@ != key by {
            assert(rest[j] == entries[j + 1]);
        }
        lemma_lookup_none(rest, key);
    }
}

/// What is found is the value of some entry of that name.
pub proof fn lemma_lookup_some<V>(entries: Seq<(String, V)>, key: Seq<char>) -> (i: int)
    requires
        lookup(entries, key).is_some(),
    ensures
        0 <= i < entries.len(),
        entries[i].0@ == key,
        lookup(entries, key) == Some(entries[i].1),
        forall|j: int| 0 <= j < i ==> (#[trigger] entries[j]).0@ != key,
    decreases entries.len(),
{
    if entries[0].0@ == key {
        0
    } else {
        let rest = entries.drop_first();
        let k = lemma_lookup_some(rest, key);
        assert(rest[k] == entries[k + 1]);
        assert forall|j: int| 0 <= j < k + 1 implies (#[trigger] entries[j]).0@ != key by {
            if j > 0 {
                assert(rest[j - 1] == entries[j]);
            }
        }
        k + 1
    }
}

/// Putting a value under a name changes what is found for that name and for
/// no other: whether the first entry of the name is replaced or, where there
/// is none, a new entry joins at the end.
pub proof fn lemma_lookup_put<V>(
    before: Seq<(String, V)>,
    after: Seq<(String, V)>,
    key: Seq<char>,
    value: V,
    other: Seq<char>,
)
    requires
        other != key,
        ({
            ||| exists|i: int, name: String|
                0 <= i < before.len() && before[i].0@ == key && name@ == key && after
                    == before.update(i, (name, value))
            ||| exists|name: String| name@ == key && after == before.push((name, value))
        }),
    ensures
        lookup(after, other) == lookup(before, other),
    decreases before.len(),
{
    if before.len() == 0 {
        let name = choose|name: String| name@ == key && after == before.push((name, value));
        assert(after.drop_first() =~= before);
    } else {
        let b2 = before.drop_first();
        let a2 = after.drop_first();
        if exists|i: int, name: String|
            0 <= i < before.len() && before[i].0@ == key && name@ == key && after
                == before.update(i, (name, value)) {
            let (i, name) = choose|i: int, name: String|
                0 <= i < before.len() && before[i].0@ == key && name@ == key && after
                    == before.update(i, (name, value));
            if i == 0 {
                assert(a2 =~= b2);
            } else {
                assert(a2 =~= b2.update(i - 1, (name, value)));
                assert(b2[i - 1] == before[i]);
                lemma_lookup_put(b2, a2, key, value, other);
            }
        } else {
            let name = choose|name: String| name@ == key && after == before.push((name, value));
            assert(a2 =~= b2.push((name, value)));
            lemma_lookup_put(b2, a2, key, value, other);
        }
    }
}

/// The place of the first entry of the name `key`.
pub fn find<V>(entries: &Vec<(String, V)>, key: &str) -> (r: Option<usize>)
    ensures
        match r {
            Some(i) => i < entries@.len() && entries@[i as int].0@ == key@ && lookup(
                entries@,
                key@,
            ) == Some(entries@[i as int].1),
            None => lookup(entries@, key@).is_none(),
        },
        forall|j: int|
            0 <= j < (match r {
                Some(i) => i as int,
                None => entries@.len() as int,
            }) ==> (#[trigger] entries@[j]).0@ != key@,
{
    let mut i: usize = 0;
    while i < entries.len()
        invariant
            i <= entries@.len(),
            forall|j: int| 0 <= j < i ==> (#[trigger] entries@[j]).0@ != key@,
        decreases entries@.len() - i,
    {
        if str_eq(entries[i].0.as_str(), key) {
            proof {
                lemma_lookup_first(entries@, key@, i as int);
            }
            return Some(i);
        }
        i = i + 1;
    }
    proof {
        lemma_lookup_none(entries@, key@);
    }
    None
}

} // verus!
