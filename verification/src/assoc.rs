//! Association lists: pairs in order, read as a map in which the last pair of a
//! key decides.
use vstd::prelude::*;

use crate::text::same;

verus! {

/// The map a list of pairs stands for: a later pair replaces an earlier one of
/// the same key.
pub open spec fn assoc<K, V>(s: Seq<(K, V)>) -> Map<K, V>
    decreases s.len(),
{
    if s.len() == 0 {
        Map::empty()
    } else {
        assoc(s.drop_last()).insert(s.last().0, s.last().1)
    }
}

/// No key stands in the list twice.
pub open spec fn distinct<K, V>(s: Seq<(K, V)>) -> bool {
    forall|i: int, j: int| 0 <= i < j < s.len() ==> #[trigger] s[i].0 != #[trigger] s[j].0
}

/// A key is in the map exactly when it is in the list.
pub proof fn assoc_keys<K, V>(s: Seq<(K, V)>)
    ensures
        forall|i: int| 0 <= i < s.len() ==> assoc(s).contains_key(#[trigger] s[i].0),
        forall|k: K| #[trigger] assoc(s).contains_key(k) ==> exists|i: int|
            0 <= i < s.len() && #[trigger] s[i].0 == k,
    decreases s.len(),
{
    if s.len() > 0 {
        let t = s.drop_last();
        assoc_keys(t);
        assert forall|i: int| 0 <= i < s.len() implies assoc(s).contains_key(#[trigger] s[i].0) by {
            if i < t.len() {
                assert(t[i] == s[i]);
            }
        }
        assert forall|k: K| #[trigger] assoc(s).contains_key(k) implies exists|i: int|
            0 <= i < s.len() && #[trigger] s[i].0 == k by {
            if k == s.last().0 {
                assert(s[s.len() - 1].0 == k);
            } else {
                assert(assoc(t).contains_key(k));
                let i = choose|i: int| 0 <= i < t.len() && #[trigger] t[i].0 == k;
                assert(s[i].0 == k);
            }
        }
    }
}

/// The pair that no later pair replaces decides.
pub proof fn assoc_last<K, V>(s: Seq<(K, V)>, i: int)
    requires
        0 <= i < s.len(),
        forall|j: int| i < j < s.len() ==> #[trigger] s[j].0 != s[i].0,
    ensures
        assoc(s).contains_key(s[i].0),
        assoc(s)[s[i].0] == s[i].1,
    decreases s.len(),
{
    if i < s.len() - 1 {
        let t = s.drop_last();
        assert(t[i] == s[i]);
        assert forall|j: int| i < j < t.len() implies #[trigger] t[j].0 != t[i].0 by {
            assert(t[j] == s[j]);
        }
        assoc_last(t, i);
    }
}

/// The value of a key is one that the list pairs with the key.
pub proof fn assoc_holds_a_pair<K, V>(s: Seq<(K, V)>, k: K)
    requires
        assoc(s).contains_key(k),
    ensures
        exists|i: int| 0 <= i < s.len() && #[trigger] s[i] == (k, assoc(s)[k]),
    decreases s.len(),
{
    let rest = s.drop_last();
    if s.last().0 == k {
        assert(s[s.len() - 1] == (k, assoc(s)[k]));
    } else {
        assoc_holds_a_pair(rest, k);
        let i = choose|i: int| 0 <= i < rest.len() && #[trigger] rest[i] == (k, assoc(rest)[k]);
        assert(s[i] == rest[i]);
    }
}

/// Two lists without repeated keys that hold the same pairs are the same map.
pub proof fn assoc_same_pairs<K, V>(s: Seq<(K, V)>, t: Seq<(K, V)>)
    requires
        distinct(s),
        distinct(t),
        forall|i: int| 0 <= i < s.len() ==> t.contains(#[trigger] s[i]),
        forall|i: int| 0 <= i < t.len() ==> s.contains(#[trigger] t[i]),
    ensures
        assoc(s) == assoc(t),
{
    assoc_keys(s);
    assoc_keys(t);
    assert forall|k: K| assoc(s).contains_key(k) implies assoc(t).contains_key(k) && assoc(t)[k]
        == assoc(s)[k] by {
        let i = choose|i: int| 0 <= i < s.len() && #[trigger] s[i].0 == k;
        assert(t.contains(s[i]));
        let j = choose|j: int| 0 <= j < t.len() && t[j] == s[i];
        assoc_last(s, i);
        assoc_last(t, j);
    }
    assert forall|k: K| assoc(t).contains_key(k) implies assoc(s).contains_key(k) by {
        let j = choose|j: int| 0 <= j < t.len() && #[trigger] t[j].0 == k;
        assert(s.contains(t[j]));
        let i = choose|i: int| 0 <= i < s.len() && s[i] == t[j];
        assoc_last(s, i);
    }
    assert(assoc(s) =~= assoc(t));
}

/// Giving the only pair of a key a new value gives the key that value.
pub proof fn assoc_update<K, V>(s: Seq<(K, V)>, i: int, v: V)
    requires
        distinct(s),
        0 <= i < s.len(),
    ensures
        distinct(s.update(i, (s[i].0, v))),
        assoc(s.update(i, (s[i].0, v))) == assoc(s).insert(s[i].0, v),
{
    let t = s.update(i, (s[i].0, v));
    assert forall|a: int, b: int| 0 <= a < b < t.len() implies #[trigger] t[a].0 != #[trigger] t[b].0 by {
        assert(t[a].0 == s[a].0 && t[b].0 == s[b].0);
    }
    assoc_keys(s);
    assoc_keys(t);
    assert forall|k: K| assoc(t).contains_key(k) == assoc(s).insert(s[i].0, v).contains_key(k) by {
        if assoc(t).contains_key(k) {
            let a = choose|a: int| 0 <= a < t.len() && #[trigger] t[a].0 == k;
            assert(s[a].0 == k);
        }
        if assoc(s).contains_key(k) {
            let a = choose|a: int| 0 <= a < s.len() && #[trigger] s[a].0 == k;
            assert(t[a].0 == k);
        }
        assert(t[i].0 == s[i].0);
    }
    assert forall|k: K| assoc(t).contains_key(k) implies assoc(t)[k] == assoc(s).insert(s[i].0, v)[k] by {
        let a = choose|a: int| 0 <= a < t.len() && #[trigger] t[a].0 == k;
        assoc_last(t, a);
        assoc_last(s, a);
    }
    assert(assoc(t) =~= assoc(s).insert(s[i].0, v));
}

/// A pair of a new key adds that key, wherever in the list it is put.
pub proof fn assoc_insert<K, V>(s: Seq<(K, V)>, i: int, k: K, v: V)
    requires
        distinct(s),
        0 <= i <= s.len(),
        forall|j: int| 0 <= j < s.len() ==> #[trigger] s[j].0 != k,
    ensures
        distinct(s.insert(i, (k, v))),
        assoc(s.insert(i, (k, v))) == assoc(s).insert(k, v),
{
    let t = s.insert(i, (k, v));
    let u = s.push((k, v));
    assert forall|a: int, b: int| 0 <= a < b < t.len() implies #[trigger] t[a].0 != #[trigger] t[b].0 by {
        if a < i {
            assert(t[a] == s[a]);
        } else if a > i {
            assert(t[a] == s[a - 1]);
        }
        if b < i {
            assert(t[b] == s[b]);
        } else if b > i {
            assert(t[b] == s[b - 1]);
        }
    }
    assert(distinct(u));
    assert forall|a: int| 0 <= a < t.len() implies u.contains(#[trigger] t[a]) by {
        if a < i {
            assert(u[a] == t[a]);
        } else if a == i {
            assert(u[s.len() as int] == t[a]);
        } else {
            assert(u[a - 1] == t[a]);
        }
    }
    assert forall|a: int| 0 <= a < u.len() implies t.contains(#[trigger] u[a]) by {
        if a == s.len() {
            assert(t[i] == u[a]);
        } else if a < i {
            assert(t[a] == u[a]);
        } else {
            assert(t[a + 1] == u[a]);
        }
    }
    assoc_same_pairs(t, u);
    assert(u.drop_last() == s);
}

/// Appending a list overrides what came before with what it holds.
pub proof fn assoc_append<K, V>(s: Seq<(K, V)>, t: Seq<(K, V)>)
    ensures
        assoc(s + t) == assoc(s).union_prefer_right(assoc(t)),
    decreases t.len(),
{
    if t.len() == 0 {
        assert(s + t == s);
        assert(assoc(s).union_prefer_right(assoc(t)) =~= assoc(s));
    } else {
        assoc_append(s, t.drop_last());
        assert((s + t).drop_last() == s + t.drop_last());
        assert((s + t).last() == t.last());
        assert(assoc(s).union_prefer_right(assoc(t)) =~= assoc(s).union_prefer_right(
            assoc(t.drop_last()),
        ).insert(t.last().0, t.last().1));
    }
}

/// The texts of a list of named values.
pub open spec fn pair_texts(s: Seq<(String, String)>) -> Seq<(Seq<char>, Seq<char>)> {
    s.map_values(|p: (String, String)| (p.0@, p.1@))
}

/// The map that a list of named values stands for.
pub open spec fn pair_map(s: Seq<(String, String)>) -> Map<Seq<char>, Seq<char>> {
    assoc(pair_texts(s))
}

/// A name is in the map exactly when it stands in the list.
pub proof fn pair_map_has(s: Seq<(String, String)>, name: Seq<char>)
    ensures
        pair_map(s).contains_key(name) <==> exists|i: int| 0 <= i < s.len() && #[trigger] s[i].0@ == name,
{
    let t = pair_texts(s);
    assoc_keys(t);
    if pair_map(s).contains_key(name) {
        let i = choose|i: int| 0 <= i < t.len() && #[trigger] t[i].0 == name;
        assert(s[i].0@ == name);
    }
    if exists|i: int| 0 <= i < s.len() && #[trigger] s[i].0@ == name {
        let i = choose|i: int| 0 <= i < s.len() && #[trigger] s[i].0@ == name;
        assert(t[i].0 == name);
    }
}

/// No name stands in the list twice.
pub open spec fn distinct_names(s: Seq<(String, String)>) -> bool {
    distinct(pair_texts(s))
}

/// The value of a name, if the list has the name.
pub fn get(pairs: &Vec<(String, String)>, name: &str) -> (r: Option<String>)
    ensures
        r is Some <==> pair_map(pairs@).contains_key(name@),
        r matches Some(v) ==> v@ == pair_map(pairs@)[name@],
{
    let mut i: usize = pairs.len();
    while i > 0
        invariant
            i <= pairs@.len(),
            forall|j: int| i <= j < pairs@.len() ==> (#[trigger] pairs@[j]).0@ != name@,
        decreases i,
    {
        if same(pairs[i - 1].0.as_str(), name) {
            proof {
                let t = pair_texts(pairs@);
                assert(t[i - 1].0 == name@);
                assert forall|j: int| i - 1 < j < t.len() implies #[trigger] t[j].0 != t[i - 1].0 by {
                    assert(pairs@[j].0@ != name@);
                }
                assoc_last(t, i - 1);
            }
            return Some(pairs[i - 1].1.clone());
        }
        i = i - 1;
    }
    proof {
        let t = pair_texts(pairs@);
        assoc_keys(t);
        if assoc(t).contains_key(name@) {
            let j = choose|j: int| 0 <= j < t.len() && #[trigger] t[j].0 == name@;
            assert(pairs@[j].0@ == name@);
        }
    }
    None
}

/// Give a name a value, replacing the one it had.
pub fn put(pairs: &mut Vec<(String, String)>, name: String, value: String)
    requires
        distinct_names(old(pairs)@),
    ensures
        distinct_names(final(pairs)@),
        pair_map(final(pairs)@) == pair_map(old(pairs)@).insert(name@, value@),
{
    let mut i: usize = 0;
    while i < pairs.len()
        invariant
            i <= pairs@.len(),
            pairs@ == old(pairs)@,
            distinct_names(pairs@),
            forall|j: int| 0 <= j < i ==> (#[trigger] pairs@[j]).0@ != name@,
        decreases pairs@.len() - i,
    {
        if same(pairs[i].0.as_str(), name.as_str()) {
            let ghost t = pair_texts(pairs@);
            let ghost value_text = value@;
            proof {
                assoc_update(t, i as int, value_text);
            }
            pairs.set(i, (name, value));
            proof {
                assert(pair_texts(pairs@) == t.update(i as int, (t[i as int].0, value_text)));
            }
            return;
        }
        i = i + 1;
    }
    let ghost t = pair_texts(pairs@);
    proof {
        assert forall|j: int| 0 <= j < t.len() implies #[trigger] t[j].0 != name@ by {
            assert(pairs@[j].0@ != name@);
        }
        assoc_insert(t, t.len() as int, name@, value@);
        assert(t.insert(t.len() as int, (name@, value@)) == t.push((name@, value@)));
    }
    let ghost added = (name@, value@);
    pairs.push((name, value));
    proof {
        assert(pair_texts(pairs@) == t.push(added));
    }
}

/// Give every name of `from` its value there, in order.
pub fn put_all(pairs: &mut Vec<(String, String)>, from: &Vec<(String, String)>)
    requires
        distinct_names(old(pairs)@),
    ensures
        distinct_names(final(pairs)@),
        pair_map(final(pairs)@) == pair_map(old(pairs)@).union_prefer_right(pair_map(from@)),
{
    let mut i: usize = 0;
    let ghost before = pair_map(pairs@);
    proof {
        assert(pair_texts(from@).take(0).len() == 0);
        assert(before.union_prefer_right(assoc(pair_texts(from@).take(0))) =~= before);
    }
    while i < from.len()
        invariant
            i <= from@.len(),
            distinct_names(pairs@),
            pair_map(pairs@) == before.union_prefer_right(assoc(pair_texts(from@).take(i as int))),
        decreases from@.len() - i,
    {
        let name = from[i].0.clone();
        let value = from[i].1.clone();
        proof {
            let now = pair_texts(from@).take(i + 1);
            assert(now.drop_last() == pair_texts(from@).take(i as int));
            assert(now.last() == (name@, value@));
            assert(before.union_prefer_right(assoc(now)) =~= before.union_prefer_right(
                assoc(now.drop_last()),
            ).insert(name@, value@));
        }
        put(pairs, name, value);
        i = i + 1;
    }
    assert(pair_texts(from@).take(from@.len() as int) == pair_texts(from@));
}

} // verus!
