//! Lists of named entries read as maps from name to value.

use vstd::prelude::*;

verus! {

/// The value that a list gives for a name: that of the last entry with the
/// name, if there is one.
pub open spec fn lookup<V>(list: Seq<(Seq<char>, V)>, name: Seq<char>) -> Option<V>
    decreases list.len(),
{
    if list.len() == 0 {
        None
    } else if list.last().0 == name {
        Some(list.last().1)
    } else {
        lookup(list.drop_last(), name)
    }
}

/// The map that a list stands for. Where a name occurs more than once, its
/// last entry counts.
pub open spec fn entries_map<V>(list: Seq<(Seq<char>, V)>) -> Map<Seq<char>, V> {
    Map::new(|name: Seq<char>| lookup(list, name) is Some, |name: Seq<char>| lookup(list, name)->0)
}

/// No name occurs twice in the list.
pub open spec fn distinct_names<V>(list: Seq<(Seq<char>, V)>) -> bool {
    forall|i: int, j: int|
        0 <= i < j < list.len() ==> (#[trigger] list[i]).0 != (#[trigger] list[j]).0
}

/// Whether some entry of the list has the name.
pub open spec fn has_name<V>(list: Seq<(Seq<char>, V)>, name: Seq<char>) -> bool {
    exists|i: int| 0 <= i < list.len() && (#[trigger] list[i]).0 == name
}

/// The place of an entry with the name.
pub open spec fn place_of<V>(list: Seq<(Seq<char>, V)>, name: Seq<char>) -> int {
    choose|i: int| 0 <= i < list.len() && (#[trigger] list[i]).0 == name
}

/// The list after a value was put under a name: in the place of the entry
/// with that name where there is one, else at the end.
pub open spec fn put<V>(list: Seq<(Seq<char>, V)>, name: Seq<char>, value: V) -> Seq<
    (Seq<char>, V),
> {
    if has_name(list, name) {
        list.update(place_of(list, name), (name, value))
    } else {
        list.push((name, value))
    }
}

/// The entries of a list put one after another: each name stands where it
/// first came, with the value that came last.
pub open spec fn merged<V>(list: Seq<(Seq<char>, V)>) -> Seq<(Seq<char>, V)>
    decreases list.len(),
{
    if list.len() == 0 {
        Seq::empty()
    } else {
        put(merged(list.drop_last()), list.last().0, list.last().1)
    }
}

/// In a list without repeated names each entry is what its name looks up.
pub proof fn lemma_lookup_at<V>(list: Seq<(Seq<char>, V)>, i: int)
    requires
        distinct_names(list),
        0 <= i < list.len(),
    ensures
        lookup(list, list[i].0) == Some(list[i].1),
    decreases list.len(),
{
    if i < list.len() - 1 {
        lemma_lookup_at(list.drop_last(), i);
    }
}

/// A name that no entry has looks up nothing.
pub proof fn lemma_lookup_absent<V>(list: Seq<(Seq<char>, V)>, name: Seq<char>)
    requires
        !has_name(list, name),
    ensures
        lookup(list, name) is None,
    decreases list.len(),
{
    if list.len() > 0 {
        lemma_lookup_absent(list.drop_last(), name);
    }
}

/// What a name looks up is the value of an entry with that name.
pub proof fn lemma_lookup_found<V>(list: Seq<(Seq<char>, V)>, name: Seq<char>) -> (i: int)
    requires
        lookup(list, name) is Some,
    ensures
        0 <= i < list.len(),
        list[i].0 == name,
        lookup(list, name) == Some(list[i].1),
    decreases list.len(),
{
    if list.last().0 == name {
        list.len() - 1
    } else {
        lemma_lookup_found(list.drop_last(), name)
    }
}

/// Replacing the value of an entry repeats no name.
pub proof fn lemma_update_keeps_distinct<V>(list: Seq<(Seq<char>, V)>, i: int, value: V)
    requires
        distinct_names(list),
        0 <= i < list.len(),
    ensures
        distinct_names(list.update(i, (list[i].0, value))),
{
}

/// Replacing the value of an entry is an insertion under its name.
pub proof fn lemma_update_map<V>(list: Seq<(Seq<char>, V)>, i: int, value: V)
    requires
        distinct_names(list),
        0 <= i < list.len(),
    ensures
        entries_map(list.update(i, (list[i].0, value))) == entries_map(list).insert(
            list[i].0,
            value,
        ),
{
    let name = list[i].0;
    let after = list.update(i, (name, value));
    lemma_update_keeps_distinct(list, i, value);
    assert forall|k: Seq<char>| lookup(after, k) == (if k == name {
        Some(value)
    } else {
        lookup(list, k)
    }) by {
        if k == name {
            lemma_lookup_at(after, i);
        } else if lookup(list, k) is Some {
            let j = lemma_lookup_found(list, k);
            lemma_lookup_at(after, j);
        } else if lookup(after, k) is Some {
            let j = lemma_lookup_found(after, k);
            lemma_lookup_at(list, j);
        }
    }
}

/// Adding an entry under a new name repeats no name.
pub proof fn lemma_push_keeps_distinct<V>(list: Seq<(Seq<char>, V)>, name: Seq<char>, value: V)
    requires
        distinct_names(list),
        !has_name(list, name),
    ensures
        distinct_names(list.push((name, value))),
{
}

/// Adding an entry at the end is an insertion under its name.
pub proof fn lemma_push_map<V>(list: Seq<(Seq<char>, V)>, name: Seq<char>, value: V)
    ensures
        entries_map(list.push((name, value))) == entries_map(list).insert(name, value),
{
    let after = list.push((name, value));
    assert(after.drop_last() =~= list);
}

/// A list without repeated names stands for a map of as many names as it
/// has entries.
pub proof fn lemma_map_size<V>(list: Seq<(Seq<char>, V)>)
    requires
        distinct_names(list),
    ensures
        entries_map(list).dom().finite(),
        entries_map(list).len() == list.len(),
    decreases list.len(),
{
    if list.len() == 0 {
        assert(entries_map(list).dom() =~= Set::empty());
    } else {
        let front = list.drop_last();
        let last = list.last();
        lemma_map_size(front);
        lemma_lookup_absent(front, last.0);
        lemma_push_map(front, last.0, last.1);
        assert(entries_map(list).dom() =~= entries_map(front).dom().insert(last.0));
    }
}

/// In a list without repeated names an entry stands at the place of its
/// name.
pub proof fn lemma_place_of<V>(list: Seq<(Seq<char>, V)>, i: int)
    requires
        distinct_names(list),
        0 <= i < list.len(),
    ensures
        has_name(list, list[i].0),
        place_of(list, list[i].0) == i,
{
}

/// Putting a value under a name is an insertion under that name, and
/// repeats no name.
pub proof fn lemma_put<V>(list: Seq<(Seq<char>, V)>, name: Seq<char>, value: V)
    requires
        distinct_names(list),
    ensures
        distinct_names(put(list, name, value)),
        entries_map(put(list, name, value)) == entries_map(list).insert(name, value),
{
    if has_name(list, name) {
        let i = place_of(list, name);
        lemma_update_keeps_distinct(list, i, value);
        lemma_update_map(list, i, value);
    } else {
        lemma_push_keeps_distinct(list, name, value);
        lemma_push_map(list, name, value);
    }
}

/// Merging a list keeps what each name looks up and repeats no name; a list
/// without repeated names is left as it is.
pub proof fn lemma_merged<V>(list: Seq<(Seq<char>, V)>)
    ensures
        distinct_names(merged(list)),
        entries_map(merged(list)) == entries_map(list),
        distinct_names(list) ==> merged(list) == list,
    decreases list.len(),
{
    if list.len() > 0 {
        let front = list.drop_last();
        let last = list.last();
        lemma_merged(front);
        lemma_put(merged(front), last.0, last.1);
        lemma_push_map(front, last.0, last.1);
    }
}

} // verus!
