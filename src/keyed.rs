//! The map model shared by the library's keyed collections: a sequence of
//! distinct keys beside a sequence of values of the same length.
use vstd::prelude::*;

verus! {

/// The map that sends `keys[i]` to `vals[i]`.
pub open spec fn map_of<V>(keys: Seq<Seq<char>>, vals: Seq<V>) -> Map<Seq<char>, V> {
    Map::new(|k: Seq<char>| keys.contains(k), |k: Seq<char>| vals[keys.index_of(k)])
}

pub proof fn lemma_map_of_at<V>(keys: Seq<Seq<char>>, vals: Seq<V>, i: int)
    requires
        keys.no_duplicates(),
        0 <= i < keys.len(),
    ensures
        map_of(keys, vals).contains_key(keys[i]),
        map_of(keys, vals)[keys[i]] == vals[i],
{
    assert(keys.contains(keys[i]));
    let j = keys.index_of(keys[i]);
    assert(0 <= j < keys.len() && keys[j] == keys[i]);
}

pub proof fn lemma_map_of_empty<V>(keys: Seq<Seq<char>>, vals: Seq<V>)
    requires
        keys.len() == 0,
    ensures
        map_of(keys, vals) == Map::<Seq<char>, V>::empty(),
{
    assert(map_of(keys, vals) =~= Map::<Seq<char>, V>::empty());
}

pub proof fn lemma_map_of_push<V>(keys: Seq<Seq<char>>, vals: Seq<V>, k: Seq<char>, v: V)
    requires
        keys.no_duplicates(),
        keys.len() == vals.len(),
        !keys.contains(k),
    ensures
        keys.push(k).no_duplicates(),
        map_of(keys.push(k), vals.push(v)) == map_of(keys, vals).insert(k, v),
{
    let nk = keys.push(k);
    let nv = vals.push(v);
    assert forall|a: int, b: int| 0 <= a < nk.len() && 0 <= b < nk.len() && a != b implies nk[a]
        != nk[b] by {
        if a == keys.len() {
            assert(keys[b] == nk[b]);
        } else if b == keys.len() {
            assert(keys[a] == nk[a]);
        }
    }
    let lhs = map_of(nk, nv);
    let rhs = map_of(keys, vals).insert(k, v);
    assert forall|x: Seq<char>| #[trigger] lhs.contains_key(x) <==> rhs.contains_key(x) by {
        if keys.contains(x) {
            let j = keys.index_of(x);
            assert(nk[j] == x);
        }
        if nk.contains(x) && x != k {
            let j = nk.index_of(x);
            assert(keys[j] == x);
        }
        assert(nk[keys.len() as int] == k);
    }
    assert forall|x: Seq<char>| #[trigger] lhs.contains_key(x) implies lhs[x] == rhs[x] by {
        let j = nk.index_of(x);
        lemma_map_of_at(nk, nv, j);
        if j < keys.len() {
            assert(keys[j] == nk[j]);
            lemma_map_of_at(keys, vals, j);
        }
    }
    assert(lhs =~= rhs);
}

pub proof fn lemma_map_of_update<V>(keys: Seq<Seq<char>>, vals: Seq<V>, i: int, v: V)
    requires
        keys.no_duplicates(),
        keys.len() == vals.len(),
        0 <= i < keys.len(),
    ensures
        map_of(keys, vals.update(i, v)) == map_of(keys, vals).insert(keys[i], v),
{
    let nv = vals.update(i, v);
    let lhs = map_of(keys, nv);
    let rhs = map_of(keys, vals).insert(keys[i], v);
    assert(keys.contains(keys[i]));
    assert forall|x: Seq<char>| #[trigger] lhs.contains_key(x) implies lhs[x] == rhs[x] by {
        let j = keys.index_of(x);
        lemma_map_of_at(keys, nv, j);
        lemma_map_of_at(keys, vals, j);
    }
    assert(lhs =~= rhs);
}

pub proof fn lemma_map_of_remove<V>(keys: Seq<Seq<char>>, vals: Seq<V>, i: int)
    requires
        keys.no_duplicates(),
        keys.len() == vals.len(),
        0 <= i < keys.len(),
    ensures
        keys.remove(i).no_duplicates(),
        map_of(keys.remove(i), vals.remove(i)) == map_of(keys, vals).remove(keys[i]),
{
    let nk = keys.remove(i);
    let nv = vals.remove(i);
    assert forall|a: int, b: int| 0 <= a < nk.len() && 0 <= b < nk.len() && a != b implies nk[a]
        != nk[b] by {
        let oa = if a < i { a } else { a + 1 };
        let ob = if b < i { b } else { b + 1 };
        assert(nk[a] == keys[oa] && nk[b] == keys[ob]);
    }
    let lhs = map_of(nk, nv);
    let rhs = map_of(keys, vals).remove(keys[i]);
    assert forall|x: Seq<char>| #[trigger] lhs.contains_key(x) <==> rhs.contains_key(x) by {
        if nk.contains(x) {
            let j = nk.index_of(x);
            let o = if j < i { j } else { j + 1 };
            assert(keys[o] == x);
        }
        if keys.contains(x) && x != keys[i] {
            let o = keys.index_of(x);
            let j = if o < i { o } else { o - 1 };
            assert(nk[j] == x);
        }
    }
    assert forall|x: Seq<char>| #[trigger] lhs.contains_key(x) implies lhs[x] == rhs[x] by {
        let j = nk.index_of(x);
        let o = if j < i { j } else { j + 1 };
        lemma_map_of_at(nk, nv, j);
        assert(keys[o] == x);
        lemma_map_of_at(keys, vals, o);
    }
    assert(lhs =~= rhs);
}

} // verus!
