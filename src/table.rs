//! Association lists keyed by name.
//!
//! Service definitions and runtime records are both mappings from a service
//! name to a value. They are held as vectors of `(name, value)` pairs whose
//! names are pairwise distinct, and are reasoned about through the `Map` that
//! such a vector stands for.
use vstd::prelude::*;

verus! {

/// No two entries share a name.
pub open spec fn keys_unique<V>(e: Seq<(String, V)>) -> bool {
    forall|i: int, j: int|
        0 <= i < e.len() && 0 <= j < e.len() && i != j ==> #[trigger] e[i].0@ != #[trigger] e[j].0@
}

/// Some entry is named `k`.
pub open spec fn has_key<V>(e: Seq<(String, V)>, k: Seq<char>) -> bool {
    exists|i: int| 0 <= i < e.len() && #[trigger] e[i].0@ == k
}

/// The position of an entry named `k`, where there is one.
pub open spec fn key_index<V>(e: Seq<(String, V)>, k: Seq<char>) -> int {
    choose|i: int| 0 <= i < e.len() && #[trigger] e[i].0@ == k
}

/// The mapping from name to value that an association list stands for.
pub open spec fn table_view<V>(e: Seq<(String, V)>) -> Map<Seq<char>, V> {
    Map::new(|k: Seq<char>| has_key(e, k), |k: Seq<char>| e[key_index(e, k)].1)
}

/// In a list with distinct names, the entry at `i` is what its name maps to.
pub proof fn lemma_view_at<V>(e: Seq<(String, V)>, i: int)
    requires
        keys_unique(e),
        0 <= i < e.len(),
    ensures
        table_view(e).contains_key(e[i].0@),
        table_view(e)[e[i].0@] == e[i].1,
{
    let k = e[i].0@;
    assert(has_key(e, k));
    let j = key_index(e, k);
    assert(e[j].0@ == k);
}

/// Replacing the value at a position keeps the names distinct and updates the
/// mapping at that name only.
pub proof fn lemma_view_update<V>(e: Seq<(String, V)>, i: int, k: String, v: V)
    requires
        keys_unique(e),
        0 <= i < e.len(),
        k@ == e[i].0@,
    ensures
        keys_unique(e.update(i, (k, v))),
        table_view(e.update(i, (k, v))) == table_view(e).insert(k@, v),
{
    let e2 = e.update(i, (k, v));
    assert forall|a: int| 0 <= a < e2.len() implies #[trigger] e2[a].0@ == e[a].0@ by {}
    assert(keys_unique(e2)) by {
        assert forall|a: int, b: int|
            0 <= a < e2.len() && 0 <= b < e2.len() && a != b implies #[trigger] e2[a].0@
            != #[trigger] e2[b].0@ by {
            assert(e2[a].0@ == e[a].0@);
            assert(e2[b].0@ == e[b].0@);
        }
    }
    assert forall|x: Seq<char>| has_key(e2, x) == has_key(e, x) by {
        if has_key(e, x) {
            let j = key_index(e, x);
            assert(e2[j].0@ == x);
        }
        if has_key(e2, x) {
            let j = key_index(e2, x);
            assert(e[j].0@ == x);
        }
    }
    lemma_view_at(e2, i);
    assert forall|x: Seq<char>| x != k@ && has_key(e, x) implies table_view(e2)[x]
        == table_view(e)[x] by {
        let j = key_index(e, x);
        lemma_view_at(e, j);
        assert(e2[j] == e[j]);
        lemma_view_at(e2, j);
    }
    assert(table_view(e2) =~= table_view(e).insert(k@, v));
}

/// Appending an entry under a new name keeps the names distinct and adds that
/// name to the mapping.
pub proof fn lemma_view_push<V>(e: Seq<(String, V)>, k: String, v: V)
    requires
        keys_unique(e),
        !has_key(e, k@),
    ensures
        keys_unique(e.push((k, v))),
        table_view(e.push((k, v))) == table_view(e).insert(k@, v),
{
    let e2 = e.push((k, v));
    assert forall|a: int| 0 <= a < e.len() implies #[trigger] e2[a] == e[a] by {}
    assert(keys_unique(e2)) by {
        assert forall|a: int, b: int|
            0 <= a < e2.len() && 0 <= b < e2.len() && a != b implies #[trigger] e2[a].0@
            != #[trigger] e2[b].0@ by {
            if a < e.len() && b < e.len() {
                assert(e2[a] == e[a]);
                assert(e2[b] == e[b]);
            } else if a < e.len() {
                assert(e2[a] == e[a]);
                assert(e[a].0@ != k@);
            } else {
                assert(e2[b] == e[b]);
                assert(e[b].0@ != k@);
            }
        }
    }
    assert forall|x: Seq<char>| x != k@ implies has_key(e2, x) == has_key(e, x) by {
        if has_key(e, x) {
            let j = key_index(e, x);
            assert(e2[j].0@ == x);
        }
        if has_key(e2, x) {
            let j = key_index(e2, x);
            assert(e[j].0@ == x);
        }
    }
    lemma_view_at(e2, e.len() as int);
    assert forall|x: Seq<char>| x != k@ && has_key(e, x) implies table_view(e2)[x]
        == table_view(e)[x] by {
        let j = key_index(e, x);
        lemma_view_at(e, j);
        lemma_view_at(e2, j);
    }
    assert(table_view(e2) =~= table_view(e).insert(k@, v));
}

/// Removing the entry at a position keeps the names distinct and removes that
/// name from the mapping.
pub proof fn lemma_view_remove<V>(e: Seq<(String, V)>, i: int)
    requires
        keys_unique(e),
        0 <= i < e.len(),
    ensures
        keys_unique(e.remove(i)),
        table_view(e.remove(i)) == table_view(e).remove(e[i].0@),
{
    let e2 = e.remove(i);
    let k = e[i].0@;
    assert forall|a: int| 0 <= a < e2.len() implies #[trigger] e2[a] == (if a < i {
        e[a]
    } else {
        e[a + 1]
    }) by {}
    assert(keys_unique(e2)) by {
        assert forall|a: int, b: int|
            0 <= a < e2.len() && 0 <= b < e2.len() && a != b implies #[trigger] e2[a].0@
            != #[trigger] e2[b].0@ by {
            let a0 = if a < i { a } else { a + 1 };
            let b0 = if b < i { b } else { b + 1 };
            assert(e2[a] == e[a0]);
            assert(e2[b] == e[b0]);
        }
    }
    assert forall|x: Seq<char>| x != k implies has_key(e2, x) == has_key(e, x) by {
        if has_key(e, x) {
            let j = key_index(e, x);
            assert(j != i);
            let j2 = if j < i { j } else { j - 1 };
            assert(e2[j2] == e[j]);
            assert(e2[j2].0@ == x);
        }
        if has_key(e2, x) {
            let j = key_index(e2, x);
            let j0 = if j < i { j } else { j + 1 };
            assert(e2[j] == e[j0]);
            assert(e[j0].0@ == x);
        }
    }
    assert(!has_key(e2, k)) by {
        if has_key(e2, k) {
            let j = key_index(e2, k);
            let j0 = if j < i { j } else { j + 1 };
            assert(e2[j] == e[j0]);
            assert(e[j0].0@ == e[i].0@);
        }
    }
    assert forall|x: Seq<char>| x != k && has_key(e, x) implies table_view(e2)[x]
        == table_view(e)[x] by {
        let j = key_index(e, x);
        lemma_view_at(e, j);
        assert(j != i);
        let j2 = if j < i { j } else { j - 1 };
        assert(e2[j2] == e[j]);
        lemma_view_at(e2, j2);
    }
    assert(table_view(e2) =~= table_view(e).remove(k));
}

/// The position of the entry named `k`, if any.
pub fn find_key<V>(e: &Vec<(String, V)>, k: &String) -> (r: Option<usize>)
    ensures
        match r {
            Some(i) => i < e@.len() && e@[i as int].0@ == k@,
            None => !has_key(e@, k@),
        },
{
    let mut i: usize = 0;
    while i < e.len()
        invariant
            0 <= i <= e@.len(),
            forall|j: int| 0 <= j < i ==> #[trigger] e@[j].0@ != k@,
        decreases e@.len() - i,
    {
        if e[i].0 == *k {
            return Some(i);
        }
        i += 1;
    }
    None
}

/// The value stored under `k`, if any.
pub fn table_get<'a, V>(e: &'a Vec<(String, V)>, k: &String) -> (r: Option<&'a V>)
    requires
        keys_unique(e@),
    ensures
        match r {
            Some(v) => table_view(e@).contains_key(k@) && *v == table_view(e@)[k@],
            None => !table_view(e@).contains_key(k@),
        },
{
    match find_key(e, k) {
        Some(i) => {
            proof {
                lemma_view_at(e@, i as int);
            }
            Some(&e[i].1)
        },
        None => None,
    }
}

/// Store `v` under `k`, replacing what was there.
pub fn table_put<V>(e: &mut Vec<(String, V)>, k: String, v: V)
    requires
        keys_unique(old(e)@),
    ensures
        keys_unique(final(e)@),
        table_view(final(e)@) == table_view(old(e)@).insert(k@, v),
{
    match find_key(e, &k) {
        Some(i) => {
            proof {
                lemma_view_update(e@, i as int, k, v);
            }
            e.set(i, (k, v));
        },
        None => {
            proof {
                lemma_view_push(e@, k, v);
            }
            e.push((k, v));
        },
    }
}

/// Drop the entry named `k`, if any.
pub fn table_remove<V>(e: &mut Vec<(String, V)>, k: &String)
    requires
        keys_unique(old(e)@),
    ensures
        keys_unique(final(e)@),
        table_view(final(e)@) == table_view(old(e)@).remove(k@),
{
    match find_key(e, k) {
        Some(i) => {
            proof {
                lemma_view_remove(e@, i as int);
            }
            e.remove(i);
        },
        None => {
            assert(table_view(e@) =~= table_view(e@).remove(k@));
        },
    }
}

} // verus!
