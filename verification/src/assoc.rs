//! Lists of named entries in which no name occurs twice, seen as maps from
//! names to values.

use vstd::prelude::*;

verus! {

/// No name occurs twice.
pub open spec fn names_unique<V>(items: Seq<(String, V)>) -> bool {
    forall|i: int, j: int| 0 <= i < j < items.len() ==> items[i].0@ != items[j].0@
}

/// The values of the entries, by name.
pub open spec fn entry_map<V>(items: Seq<(String, V)>) -> Map<Seq<char>, V> {
    Map::new(
        |k: Seq<char>| exists|i: int| 0 <= i < items.len() && #[trigger] items[i].0@ == k,
        |k: Seq<char>| items[choose|i: int| 0 <= i < items.len() && #[trigger] items[i].0@ == k].1,
    )
}

/// Each entry of a list without repeated names is what the map holds for its
/// name.
pub proof fn lemma_entry<V>(items: Seq<(String, V)>, i: int)
    requires
        names_unique(items),
        0 <= i < items.len(),
    ensures
        entry_map(items).contains_key(items[i].0@),
        entry_map(items)[items[i].0@] == items[i].1,
{
    let k = items[i].0@;
    assert(items[i].0@ == k);
    let j = choose|j: int| 0 <= j < items.len() && #[trigger] items[j].0@ == k;
    if j != i {
        if j < i {
            assert(items[j].0@ != items[i].0@);
        } else {
            assert(items[i].0@ != items[j].0@);
        }
    }
}

/// Changing the value of one entry changes the map at its name only.
pub proof fn lemma_update<V>(old_items: Seq<(String, V)>, new_items: Seq<(String, V)>, i: int)
    requires
        names_unique(old_items),
        0 <= i < old_items.len(),
        new_items.len() == old_items.len(),
        new_items[i].0@ == old_items[i].0@,
        forall|j: int| 0 <= j < old_items.len() && j != i ==> new_items[j] == old_items[j],
    ensures
        names_unique(new_items),
        entry_map(new_items) == entry_map(old_items).insert(old_items[i].0@, new_items[i].1),
{
    let k = old_items[i].0@;
    let expected = entry_map(old_items).insert(k, new_items[i].1);
    assert forall|a: int, b: int| 0 <= a < b < new_items.len() implies new_items[a].0@
        != new_items[b].0@ by {
        assert(new_items[a].0@ == old_items[a].0@);
        assert(new_items[b].0@ == old_items[b].0@);
    }
    assert forall|key: Seq<char>| #[trigger]
        entry_map(new_items).contains_key(key) == expected.contains_key(key) by {
        if entry_map(old_items).contains_key(key) {
            let j = choose|j: int| 0 <= j < old_items.len() && #[trigger] old_items[j].0@ == key;
            assert(new_items[j].0@ == old_items[j].0@);
        }
        if entry_map(new_items).contains_key(key) {
            let j = choose|j: int| 0 <= j < new_items.len() && #[trigger] new_items[j].0@ == key;
            assert(new_items[j].0@ == old_items[j].0@);
        }
        if key == k {
            assert(new_items[i].0@ == k);
        }
    }
    assert forall|key: Seq<char>| #[trigger] entry_map(new_items).contains_key(key) implies entry_map(
        new_items,
    )[key] == expected[key] by {
        let j = choose|j: int| 0 <= j < new_items.len() && #[trigger] new_items[j].0@ == key;
        lemma_entry(new_items, j);
        if j != i {
            assert(new_items[j] == old_items[j]);
            lemma_entry(old_items, j);
        }
    }
    assert(entry_map(new_items) =~= expected);
}

/// Appending an entry under a new name adds it to the map.
pub proof fn lemma_push<V>(old_items: Seq<(String, V)>, e: (String, V))
    requires
        names_unique(old_items),
        !entry_map(old_items).contains_key(e.0@),
    ensures
        names_unique(old_items.push(e)),
        entry_map(old_items.push(e)) == entry_map(old_items).insert(e.0@, e.1),
{
    let new_items = old_items.push(e);
    let k = e.0@;
    let expected = entry_map(old_items).insert(k, e.1);
    assert forall|a: int, b: int| 0 <= a < b < new_items.len() implies new_items[a].0@
        != new_items[b].0@ by {
        assert(new_items[a] == old_items[a]);
        if b < old_items.len() {
            assert(new_items[b] == old_items[b]);
        } else {
            assert(old_items[a].0@ == old_items[a].0@);
        }
    }
    assert forall|key: Seq<char>| #[trigger]
        entry_map(new_items).contains_key(key) == expected.contains_key(key) by {
        if entry_map(old_items).contains_key(key) {
            let j = choose|j: int| 0 <= j < old_items.len() && #[trigger] old_items[j].0@ == key;
            assert(new_items[j] == old_items[j]);
        }
        if entry_map(new_items).contains_key(key) && key != k {
            let j = choose|j: int| 0 <= j < new_items.len() && #[trigger] new_items[j].0@ == key;
            assert(new_items[j] == old_items[j]);
        }
        if key == k {
            assert(new_items[old_items.len() as int].0@ == k);
        }
    }
    assert forall|key: Seq<char>| #[trigger] entry_map(new_items).contains_key(key) implies entry_map(
        new_items,
    )[key] == expected[key] by {
        let j = choose|j: int| 0 <= j < new_items.len() && #[trigger] new_items[j].0@ == key;
        lemma_entry(new_items, j);
        if j < old_items.len() {
            assert(new_items[j] == old_items[j]);
            lemma_entry(old_items, j);
        }
    }
    assert(entry_map(new_items) =~= expected);
}

/// Dropping an entry drops its name from the map.
pub proof fn lemma_remove<V>(old_items: Seq<(String, V)>, i: int)
    requires
        names_unique(old_items),
        0 <= i < old_items.len(),
    ensures
        names_unique(old_items.remove(i)),
        entry_map(old_items.remove(i)) == entry_map(old_items).remove(old_items[i].0@),
{
    let new_items = old_items.remove(i);
    let k = old_items[i].0@;
    let expected = entry_map(old_items).remove(k);
    assert forall|a: int, b: int| 0 <= a < b < new_items.len() implies new_items[a].0@
        != new_items[b].0@ by {
        let a0 = if a < i {
            a
        } else {
            a + 1
        };
        let b0 = if b < i {
            b
        } else {
            b + 1
        };
        assert(new_items[a] == old_items[a0] && new_items[b] == old_items[b0]);
    }
    assert forall|key: Seq<char>| #[trigger]
        entry_map(new_items).contains_key(key) == expected.contains_key(key) by {
        if entry_map(old_items).contains_key(key) && key != k {
            let j = choose|j: int| 0 <= j < old_items.len() && #[trigger] old_items[j].0@ == key;
            let j1 = if j < i {
                j
            } else {
                j - 1
            };
            assert(new_items[j1] == old_items[j]);
        }
        if entry_map(new_items).contains_key(key) {
            let j = choose|j: int| 0 <= j < new_items.len() && #[trigger] new_items[j].0@ == key;
            let j0 = if j < i {
                j
            } else {
                j + 1
            };
            assert(new_items[j] == old_items[j0]);
            if key == k {
                if j0 < i {
                    assert(old_items[j0].0@ != old_items[i].0@);
                } else {
                    assert(old_items[i].0@ != old_items[j0].0@);
                }
            }
        }
    }
    assert forall|key: Seq<char>| #[trigger] entry_map(new_items).contains_key(key) implies entry_map(
        new_items,
    )[key] == expected[key] by {
        let j = choose|j: int| 0 <= j < new_items.len() && #[trigger] new_items[j].0@ == key;
        lemma_entry(new_items, j);
        let j0 = if j < i {
            j
        } else {
            j + 1
        };
        assert(new_items[j] == old_items[j0]);
        lemma_entry(old_items, j0);
    }
    assert(entry_map(new_items) =~= expected);
}

/// Position of the entry named `name`, if any.
pub fn position<V>(items: &Vec<(String, V)>, name: &str) -> (pos: Option<usize>)
    ensures
        match pos {
            Some(i) => i < items@.len() && items@[i as int].0@ == name@,
            None => forall|i: int| 0 <= i < items@.len() ==> #[trigger] items@[i].0@ != name@,
        },
{
    let wanted: String = name.to_owned();
    let n = items.len();
    for i in 0..n
        invariant
            n == items@.len(),
            wanted@ == name@,
            forall|j: int| 0 <= j < i ==> #[trigger] items@[j].0@ != name@,
    {
        if items[i].0 == wanted {
            return Some(i);
        }
    }
    None
}

} // verus!
