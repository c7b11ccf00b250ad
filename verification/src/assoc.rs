use vstd::prelude::*;

verus! {

/// A key occurs at most once in the list.
pub open spec fn keys_unique<V>(s: Seq<(Seq<char>, V)>) -> bool {
    forall|i: int, j: int| 0 <= i < s.len() && 0 <= j < s.len() && i != j ==> s[i].0 != s[j].0
}

/// Some entry of the list has key `k`.
pub open spec fn has_entry<V>(s: Seq<(Seq<char>, V)>, k: Seq<char>) -> bool {
    exists|i: int| 0 <= i < s.len() && #[trigger] s[i].0 == k
}

/// The map that a key-value list with unique keys stands for.
pub open spec fn assoc_map<V>(s: Seq<(Seq<char>, V)>) -> Map<Seq<char>, V> {
    Map::new(
        |k: Seq<char>| has_entry(s, k),
        |k: Seq<char>| s[choose|i: int| 0 <= i < s.len() && #[trigger] s[i].0 == k].1,
    )
}

pub proof fn lemma_assoc_index<V>(s: Seq<(Seq<char>, V)>, i: int)
    requires
        keys_unique(s),
        0 <= i < s.len(),
    ensures
        assoc_map(s).contains_key(s[i].0),
        assoc_map(s)[s[i].0] == s[i].1,
{
    assert(has_entry(s, s[i].0));
    let c = choose|c: int| 0 <= c < s.len() && #[trigger] s[c].0 == s[i].0;
    assert(c == i);
}

pub proof fn lemma_assoc_absent<V>(s: Seq<(Seq<char>, V)>, k: Seq<char>)
    requires
        forall|i: int| 0 <= i < s.len() ==> s[i].0 != k,
    ensures
        !assoc_map(s).contains_key(k),
{
}

pub proof fn lemma_assoc_push<V>(s: Seq<(Seq<char>, V)>, k: Seq<char>, v: V)
    requires
        keys_unique(s),
        !assoc_map(s).contains_key(k),
    ensures
        keys_unique(s.push((k, v))),
        assoc_map(s.push((k, v))) == assoc_map(s).insert(k, v),
{
    let t = s.push((k, v));
    assert forall|i: int| 0 <= i < s.len() implies s[i].0 != k by {
        if s[i].0 == k {
            assert(has_entry(s, k));
        }
    }
    assert(keys_unique(t));
    assert forall|key: Seq<char>| #[trigger] assoc_map(t).contains_key(key) == assoc_map(s).insert(k, v).contains_key(key) by {
        if has_entry(t, key) && key != k {
            let i = choose|i: int| 0 <= i < t.len() && #[trigger] t[i].0 == key;
            assert(s[i].0 == key);
        }
        if has_entry(s, key) {
            let i = choose|i: int| 0 <= i < s.len() && #[trigger] s[i].0 == key;
            assert(t[i].0 == key);
        }
        if key == k {
            assert(t[s.len() as int].0 == k);
        }
    }
    assert forall|key: Seq<char>| #[trigger] assoc_map(t).contains_key(key) implies assoc_map(t)[key] == assoc_map(s).insert(k, v)[key] by {
        if key == k {
            lemma_assoc_index(t, s.len() as int);
        } else {
            let i = choose|i: int| 0 <= i < t.len() && #[trigger] t[i].0 == key;
            lemma_assoc_index(t, i);
            lemma_assoc_index(s, i);
        }
    }
    assert(assoc_map(t) =~= assoc_map(s).insert(k, v));
}

pub proof fn lemma_assoc_update<V>(s: Seq<(Seq<char>, V)>, i: int, v: V)
    requires
        keys_unique(s),
        0 <= i < s.len(),
    ensures
        keys_unique(s.update(i, (s[i].0, v))),
        assoc_map(s.update(i, (s[i].0, v))) == assoc_map(s).insert(s[i].0, v),
{
    let k = s[i].0;
    let t = s.update(i, (k, v));
    assert(keys_unique(t));
    assert forall|key: Seq<char>| #[trigger] assoc_map(t).contains_key(key) == assoc_map(s).insert(k, v).contains_key(key) by {
        if has_entry(t, key) {
            let j = choose|j: int| 0 <= j < t.len() && #[trigger] t[j].0 == key;
            assert(s[j].0 == key);
        }
        if has_entry(s, key) {
            let j = choose|j: int| 0 <= j < s.len() && #[trigger] s[j].0 == key;
            assert(t[j].0 == key);
        }
    }
    assert forall|key: Seq<char>| #[trigger] assoc_map(t).contains_key(key) implies assoc_map(t)[key] == assoc_map(s).insert(k, v)[key] by {
        let j = choose|j: int| 0 <= j < t.len() && #[trigger] t[j].0 == key;
        lemma_assoc_index(t, j);
        if j != i {
            lemma_assoc_index(s, j);
        }
    }
    assert(assoc_map(t) =~= assoc_map(s).insert(k, v));
}

pub proof fn lemma_assoc_remove<V>(s: Seq<(Seq<char>, V)>, i: int)
    requires
        keys_unique(s),
        0 <= i < s.len(),
    ensures
        keys_unique(s.remove(i)),
        assoc_map(s.remove(i)) == assoc_map(s).remove(s[i].0),
{
    let k = s[i].0;
    let t = s.remove(i);
    assert forall|a: int, b: int| 0 <= a < t.len() && 0 <= b < t.len() && a != b implies t[a].0 != t[b].0 by {
        let sa = if a < i { a } else { a + 1 };
        let sb = if b < i { b } else { b + 1 };
        assert(t[a] == s[sa]);
        assert(t[b] == s[sb]);
    }
    assert forall|key: Seq<char>| #[trigger] assoc_map(t).contains_key(key) == assoc_map(s).remove(k).contains_key(key) by {
        if has_entry(t, key) {
            let j = choose|j: int| 0 <= j < t.len() && #[trigger] t[j].0 == key;
            let sj = if j < i { j } else { j + 1 };
            assert(s[sj].0 == key);
            assert(sj != i);
        }
        if has_entry(s, key) && key != k {
            let j = choose|j: int| 0 <= j < s.len() && #[trigger] s[j].0 == key;
            assert(j != i);
            let tj = if j < i { j } else { j - 1 };
            assert(t[tj].0 == key);
        }
    }
    assert forall|key: Seq<char>| #[trigger] assoc_map(t).contains_key(key) implies assoc_map(t)[key] == assoc_map(s).remove(k)[key] by {
        let j = choose|j: int| 0 <= j < t.len() && #[trigger] t[j].0 == key;
        let sj = if j < i { j } else { j + 1 };
        lemma_assoc_index(t, j);
        lemma_assoc_index(s, sj);
    }
    assert(assoc_map(t) =~= assoc_map(s).remove(k));
}

pub proof fn lemma_assoc_empty<V>(s: Seq<(Seq<char>, V)>)
    requires
        s.len() == 0,
    ensures
        keys_unique(s),
        assoc_map(s) == Map::<Seq<char>, V>::empty(),
{
    assert(assoc_map(s) =~= Map::<Seq<char>, V>::empty());
}

/// A key-value list with unique keys has as many entries as its map.
pub proof fn lemma_assoc_len<V>(s: Seq<(Seq<char>, V)>)
    requires
        keys_unique(s),
    ensures
        assoc_map(s).dom().finite(),
        assoc_map(s).len() == s.len(),
    decreases s.len(),
{
    if s.len() == 0 {
        lemma_assoc_empty(s);
    } else {
        let p = s.drop_last();
        assert(keys_unique(p));
        lemma_assoc_len(p);
        assert forall|i: int| 0 <= i < p.len() implies p[i].0 != s.last().0 by {
            assert(p[i] == s[i]);
        }
        lemma_assoc_absent(p, s.last().0);
        lemma_assoc_push(p, s.last().0, s.last().1);
        assert(p.push((s.last().0, s.last().1)) =~= s);
    }
}

} // verus!
