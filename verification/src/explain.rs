//! `dev config explain`: the effective configuration, with the layer that each
//! value comes from.
use vstd::prelude::*;

use crate::assoc::{distinct, pair_texts};
use crate::json::{element, json_element, json_member, json_of, json_opt, member, Json};
use crate::number::{decimal_of, read_usize, unsigned_of};
use crate::order::{
    sorted, text_antisymmetric, text_before, text_irreflexive, text_le, text_lt, text_lt_transitive, text_total,
    text_transitive, Ranked,
};
use crate::text::{begins_with, cut_once, finishes_with, same, split_once, strip_prefix, strip_suffix};

pub mod report;

verus! {

broadcast use vstd::seq_lib::group_to_multiset_ensures;

// ---------------------------------------------------------------------------
// Paths
// ---------------------------------------------------------------------------

/// What the path of a value says.
pub enum PathShape {
    Plain(Seq<char>),
    Sub(Seq<char>, Seq<char>),
    Index(Seq<char>, nat),
    Quoted(Seq<char>, Seq<char>),
}

/// What the path of a value says: a key, a key and a part of it after a dot, a
/// key and a number in brackets, or a key and an id in brackets and quotes. What
/// is in the brackets may be neither, and then the path says nothing.
pub open spec fn path_shape(path: Seq<char>) -> Option<PathShape> {
    match cut_once(path, '[') {
        Some((key, rest)) => if finishes_with(rest, "]"@) {
            let inner = rest.take(rest.len() - 1);
            if begins_with(inner, "\""@) && finishes_with(inner.skip(1), "\""@) {
                Some(PathShape::Quoted(key, inner.skip(1).take(inner.len() - 2)))
            } else {
                match unsigned_of(inner, usize::MAX as nat) {
                    Some(index) => Some(PathShape::Index(key, index)),
                    None => None,
                }
            }
        } else {
            None
        },
        None => match cut_once(path, '.') {
            Some((key, sub)) => Some(PathShape::Sub(key, sub)),
            None => Some(PathShape::Plain(path)),
        },
    }
}

/// The path of a value, taken apart.
#[derive(Debug, PartialEq, Eq)]
pub enum OriginPath {
    Plain(String),
    Sub(String, String),
    Index(String, usize),
    Quoted(String, String),
}

impl OriginPath {
    /// What the path says.
    pub open spec fn shape(&self) -> PathShape {
        match self {
            OriginPath::Plain(key) => PathShape::Plain(key@),
            OriginPath::Sub(key, sub) => PathShape::Sub(key@, sub@),
            OriginPath::Index(key, index) => PathShape::Index(key@, *index as nat),
            OriginPath::Quoted(key, id) => PathShape::Quoted(key@, id@),
        }
    }
}

/// Take the path of a value apart.
pub fn parse_origin_path(path: &str) -> (r: Option<OriginPath>)
    ensures
        match r {
            Some(parsed) => path_shape(path@) == Some(parsed.shape()),
            None => path_shape(path@) is None,
        },
{
    proof {
        reveal_strlit("]");
        reveal_strlit("\"");
    }
    match split_once(path, '[') {
        Some((key, rest)) => {
            let inner = match strip_suffix(rest.as_str(), "]") {
                Some(inner) => inner,
                None => {
                    return None;
                },
            };
            match strip_prefix(inner.as_str(), "\"") {
                Some(opened) => {
                    match strip_suffix(opened.as_str(), "\"") {
                        Some(id) => {
                            return Some(OriginPath::Quoted(key, id));
                        },
                        None => {},
                    }
                },
                None => {},
            }
            match read_usize(inner.as_str()) {
                Some(index) => Some(OriginPath::Index(key, index)),
                None => None,
            }
        },
        None => match split_once(path, '.') {
            Some((key, sub)) => Some(OriginPath::Sub(key, sub)),
            None => Some(OriginPath::Plain(crate::text::owned(path))),
        },
    }
}

/// What a path leads to in a document.
pub open spec fn resolved(document: Json, path: Seq<char>) -> Option<Json> {
    match path_shape(path) {
        None => None,
        Some(PathShape::Plain(key)) => json_member(document, key),
        Some(PathShape::Sub(key, sub)) => match json_member(document, key) {
            Some(value) => json_member(value, sub),
            None => None,
        },
        Some(PathShape::Index(key, index)) => match json_member(document, key) {
            Some(value) => json_element(value, index),
            None => None,
        },
        Some(PathShape::Quoted(key, id)) => match json_member(document, key) {
            Some(value) => json_member(value, id),
            None => None,
        },
    }
}

/// What a path leads to in a document.
pub fn resolve_path<'a>(config: &'a serde_json::Value, path: &str) -> (r: Option<&'a serde_json::Value>)
    ensures
        json_opt(r) == resolved(json_of(*config), path@),
{
    match parse_origin_path(path) {
        None => None,
        Some(OriginPath::Plain(key)) => member(config, key.as_str()),
        Some(OriginPath::Sub(key, sub)) => match member(config, key.as_str()) {
            Some(value) => member(value, sub.as_str()),
            None => None,
        },
        Some(OriginPath::Index(key, index)) => match member(config, key.as_str()) {
            Some(value) => element(value, index),
            None => None,
        },
        Some(OriginPath::Quoted(key, id)) => match member(config, key.as_str()) {
            Some(value) => member(value, id.as_str()),
            None => None,
        },
    }
}

// ---------------------------------------------------------------------------
// Order
// ---------------------------------------------------------------------------

/// What a path is put in order by: the key and the number of an array's entry;
/// any other path is put in order by itself.
pub open spec fn sort_key(path: Seq<char>) -> (Seq<char>, nat) {
    match path_shape(path) {
        Some(PathShape::Index(key, index)) => (key, index),
        _ => (path, 0),
    }
}

/// What a path is put in order by.
pub fn origin_sort_key(path: &str) -> (r: (String, usize))
    ensures
        r.0@ == sort_key(path@).0,
        r.1 as nat == sort_key(path@).1,
{
    match parse_origin_path(path) {
        Some(OriginPath::Index(key, index)) => (key, index),
        _ => (crate::text::owned(path), 0),
    }
}

/// The first origin may stand before the second: by what their paths are put in
/// order by, then by the paths, then by the layers.
pub open spec fn origin_le(a: (Seq<char>, Seq<char>), b: (Seq<char>, Seq<char>)) -> bool {
    let (ka, kb) = (sort_key(a.0), sort_key(b.0));
    ||| text_lt(ka.0, kb.0)
    ||| ka.0 == kb.0 && ka.1 < kb.1
    ||| ka == kb && text_lt(a.0, b.0)
    ||| ka == kb && a.0 == b.0 && text_le(a.1, b.1)
}

/// The order of origins is total.
pub proof fn origins_comparable(a: (Seq<char>, Seq<char>), b: (Seq<char>, Seq<char>))
    ensures
        origin_le(a, b) || origin_le(b, a),
{
    text_total(sort_key(a.0).0, sort_key(b.0).0);
    text_total(a.0, b.0);
    text_total(a.1, b.1);
}

/// The order of origins is transitive.
pub proof fn origins_transitive(
    a: (Seq<char>, Seq<char>),
    b: (Seq<char>, Seq<char>),
    c: (Seq<char>, Seq<char>),
)
    requires
        origin_le(a, b),
        origin_le(b, c),
    ensures
        origin_le(a, c),
{
    let (ka, kb, kc) = (sort_key(a.0), sort_key(b.0), sort_key(c.0));
    if text_lt(ka.0, kb.0) && text_lt(kb.0, kc.0) {
        text_lt_transitive(ka.0, kb.0, kc.0);
    }
    if text_lt(a.0, b.0) && text_lt(b.0, c.0) {
        text_lt_transitive(a.0, b.0, c.0);
    }
    if text_le(a.1, b.1) && text_le(b.1, c.1) {
        text_transitive(a.1, b.1, c.1);
    }
}

/// No two origins may each stand before the other.
pub proof fn origins_antisymmetric(a: (Seq<char>, Seq<char>), b: (Seq<char>, Seq<char>))
    requires
        origin_le(a, b),
        origin_le(b, a),
    ensures
        a == b,
{
    let (ka, kb) = (sort_key(a.0), sort_key(b.0));
    if text_lt(ka.0, kb.0) {
        text_irreflexive(ka.0);
        if text_lt(kb.0, ka.0) {
            text_lt_transitive(ka.0, kb.0, ka.0);
        }
    } else if text_lt(kb.0, ka.0) {
        text_irreflexive(ka.0);
    } else {
        text_irreflexive(a.0);
        if text_lt(a.0, b.0) && text_lt(b.0, a.0) {
            text_lt_transitive(a.0, b.0, a.0);
        }
        if a.0 == b.0 {
            text_antisymmetric(a.1, b.1);
        }
    }
}

/// The order of origins, as a relation.
pub open spec fn origin_order() -> spec_fn((Seq<char>, Seq<char>), (Seq<char>, Seq<char>)) -> bool {
    |a: (Seq<char>, Seq<char>), b: (Seq<char>, Seq<char>)| origin_le(a, b)
}

proof fn origin_order_total()
    ensures
        vstd::relations::total_ordering(origin_order()),
{
    let r = origin_order();
    assert forall|x: (Seq<char>, Seq<char>)| #[trigger] r(x, x) by {
        origins_comparable(x, x);
    }
    assert forall|x: (Seq<char>, Seq<char>), y: (Seq<char>, Seq<char>)| #[trigger] r(x, y) && #[trigger] r(y, x) implies x
        == y by {
        origins_antisymmetric(x, y);
    }
    assert forall|x: (Seq<char>, Seq<char>), y: (Seq<char>, Seq<char>), z: (Seq<char>, Seq<char>)| #[trigger] r(x, y)
        && #[trigger] r(y, z) implies r(x, z) by {
        origins_transitive(x, y, z);
    }
    assert forall|x: (Seq<char>, Seq<char>), y: (Seq<char>, Seq<char>)| #[trigger] r(x, y) || #[trigger] r(y, x) by {
        origins_comparable(x, y);
    }
}

/// The origins in order.
pub open spec fn in_order(origins: Seq<(Seq<char>, Seq<char>)>) -> Seq<(Seq<char>, Seq<char>)> {
    origins.sort_by(origin_order())
}

/// What putting origins in order keeps: the origins themselves.
pub proof fn order_keeps_the_origins(origins: Seq<(Seq<char>, Seq<char>)>)
    ensures
        in_order(origins).to_multiset() == origins.to_multiset(),
        in_order(origins).len() == origins.len(),
        distinct(origins) ==> distinct(in_order(origins)),
{
    let o = in_order(origins);
    origin_order_total();
    origins.lemma_sort_by_ensures(origin_order());
    assert(origins.to_multiset() =~= o.to_multiset());
    assert(o.to_multiset().len() == o.len());
    assert(origins.to_multiset().len() == origins.len());
    if distinct(origins) {
        assert forall|i: int, j: int|
            0 <= i < origins.len() && 0 <= j < origins.len() && i != j implies origins[i] != origins[j] by {
            if i < j {
                assert(origins[i].0 != origins[j].0);
            } else {
                assert(origins[j].0 != origins[i].0);
            }
        }
        assert(origins.no_duplicates());
        origins.lemma_multiset_has_no_duplicates();
        o.lemma_multiset_has_no_duplicates_conv();
        assert forall|i: int, j: int| 0 <= i < j < o.len() implies #[trigger] o[i].0 != #[trigger] o[j].0 by {
            assert(o.to_multiset().contains(o[i]) && o.to_multiset().contains(o[j]));
            assert(origins.to_multiset().contains(o[i]) && origins.to_multiset().contains(o[j]));
            assert(origins.contains(o[i]) && origins.contains(o[j]));
            let a = choose|a: int| 0 <= a < origins.len() && origins[a] == o[i];
            let b = choose|b: int| 0 <= b < origins.len() && origins[b] == o[j];
            if o[i].0 == o[j].0 {
                if a < b {
                    assert(origins[a].0 != origins[b].0);
                } else if b < a {
                    assert(origins[b].0 != origins[a].0);
                }
                assert(o[i] == o[j]);
            }
        }
    }
}

proof fn decimal_starts_with_digit(n: nat)
    ensures
        decimal_of(n).len() > 0,
        forall|i: int| 0 <= i < decimal_of(n).len() ==> '0' <= #[trigger] decimal_of(n)[i] <= '9',
    decreases n,
{
    if n >= 10 {
        decimal_starts_with_digit(n / 10);
        assert(forall|i: int| 0 <= i < decimal_of(n / 10).len() ==> decimal_of(n)[i] == decimal_of(n / 10)[i]);
    }
}

/// The path of an array's entry.
pub open spec fn entry_path(key: Seq<char>, index: nat) -> Seq<char> {
    key + "["@ + decimal_of(index) + "]"@
}

proof fn entry_path_shape(key: Seq<char>, index: nat)
    requires
        !key.contains('['),
        index <= usize::MAX,
    ensures
        path_shape(entry_path(key, index)) == Some(PathShape::Index(key, index)),
{
    reveal_strlit("[");
    reveal_strlit("]");
    reveal_strlit("\"");
    let path = entry_path(key, index);
    let n = key.len() as int;
    assert(path[n] == '[');
    assert forall|i: int| 0 <= i < n implies path[i] != '[' by {
        assert(path[i] == key[i]);
        assert(key.contains(key[i]));
    }
    crate::text::first_at_is(path, '[', n);
    assert(path.take(n) =~= key);
    let rest = path.skip(n + 1);
    assert(rest =~= decimal_of(index) + "]"@);
    assert(cut_once(path, '[') == Some((key, rest)));
    decimal_starts_with_digit(index);
    let inner = rest.take(rest.len() - 1);
    assert(inner =~= decimal_of(index));
    assert(rest.skip(rest.len() - 1) =~= "]"@);
    assert(finishes_with(rest, "]"@));
    assert(!begins_with(inner, "\""@)) by {
        if begins_with(inner, "\""@) {
            assert(inner.take(1)[0] == inner[0]);
        }
    }
    crate::number::decimal_reads_back(index, usize::MAX as nat);
}

/// The entries of an array come in the order of their numbers, the second before
/// the tenth, whatever else is between them.
pub proof fn array_entries_in_numeric_order(
    origins: Seq<(Seq<char>, Seq<char>)>,
    key: Seq<char>,
    i: nat,
    j: nat,
    p: int,
    q: int,
)
    requires
        !key.contains('['),
        i < j <= usize::MAX,
        0 <= p < in_order(origins).len(),
        0 <= q < in_order(origins).len(),
        in_order(origins)[p].0 == entry_path(key, i),
        in_order(origins)[q].0 == entry_path(key, j),
    ensures
        p < q,
{
    let o = in_order(origins);
    origin_order_total();
    origins.lemma_sort_by_ensures(origin_order());
    entry_path_shape(key, i);
    entry_path_shape(key, j);
    assert(origin_le(o[p], o[q]));
    if q < p {
        let r = origin_order();
        assert(r(o[q], o[p]));
        origins_antisymmetric(o[p], o[q]);
    }
    assert(sort_key(o[p].0) != sort_key(o[q].0));
}

// ---------------------------------------------------------------------------
// Sorting
// ---------------------------------------------------------------------------

/// Where a value comes from.
#[derive(Debug, PartialEq, Eq)]
pub struct Origin {
    pub path: String,
    /// The name of the layer.
    pub layer: String,
}

impl View for Origin {
    type V = (Seq<char>, Seq<char>);

    open spec fn view(&self) -> (Seq<char>, Seq<char>) {
        (self.path@, self.layer@)
    }
}

impl Ranked for Origin {
    open spec fn rank_le(a: Self, b: Self) -> bool {
        origin_le(a@, b@)
    }

    proof fn rank_total(a: Self, b: Self) {
        origins_comparable(a@, b@);
    }

    proof fn rank_transitive(a: Self, b: Self, c: Self) {
        origins_transitive(a@, b@, c@);
    }

    fn may_precede(&self, other: &Self) -> (r: bool) {
        let ka = origin_sort_key(self.path.as_str());
        let kb = origin_sort_key(other.path.as_str());
        proof {
            text_irreflexive(ka.0@);
            text_irreflexive(self.path@);
            text_total(self.layer@, other.layer@);
            if text_lt(other.layer@, self.layer@) && text_le(self.layer@, other.layer@) {
                text_antisymmetric(self.layer@, other.layer@);
                text_irreflexive(self.layer@);
            }
        }
        if text_before(ka.0.as_str(), kb.0.as_str()) {
            return true;
        }
        if !same(ka.0.as_str(), kb.0.as_str()) {
            return false;
        }
        if ka.1 != kb.1 {
            return ka.1 < kb.1;
        }
        if text_before(self.path.as_str(), other.path.as_str()) {
            return true;
        }
        if !same(self.path.as_str(), other.path.as_str()) {
            return false;
        }
        !text_before(other.layer.as_str(), self.layer.as_str())
    }
}

/// The texts of origins.
pub open spec fn origin_texts(origins: Seq<Origin>) -> Seq<(Seq<char>, Seq<char>)> {
    origins.map_values(|o: Origin| o@)
}

proof fn same_origins_same_texts(s: Seq<Origin>, t: Seq<Origin>)
    requires
        s.to_multiset() == t.to_multiset(),
    ensures
        origin_texts(s).to_multiset() == origin_texts(t).to_multiset(),
    decreases s.len(),
{
    assert(s.to_multiset().len() == s.len());
    assert(t.to_multiset().len() == t.len());
    if s.len() == 0 {
        assert(origin_texts(s) =~= origin_texts(t));
    } else {
        let a = s.last();
        let n = s.len() - 1;
        assert(s.to_multiset().contains(s[n]));
        assert(t.to_multiset().contains(a));
        assert(t.contains(a));
        let k = choose|k: int| 0 <= k < t.len() && t[k] == a;
        let s1 = s.drop_last();
        let t1 = t.remove(k);
        assert(s =~= s1.push(a));
        assert(t =~= t1.insert(k, a));
        vstd::seq_lib::to_multiset_insert(t1, k, a);
        assert(s.to_multiset() =~= s1.to_multiset().insert(a));
        assert(t.to_multiset() =~= t1.to_multiset().insert(a));
        assert(s1.to_multiset() =~= s.to_multiset().remove(a));
        assert(t1.to_multiset() =~= t.to_multiset().remove(a));
        same_origins_same_texts(s1, t1);
        let (x, y) = (origin_texts(s1), origin_texts(t1));
        assert(origin_texts(s) =~= x.push(a@));
        assert(origin_texts(t) =~= y.insert(k, a@));
        vstd::seq_lib::to_multiset_insert(y, k, a@);
        assert(origin_texts(s).to_multiset() =~= x.to_multiset().insert(a@));
        assert(origin_texts(t).to_multiset() =~= y.to_multiset().insert(a@));
    }
}

/// The origins in order.
pub fn sorted_origins(origins: &Vec<(String, String)>) -> (r: Vec<Origin>)
    ensures
        origin_texts(r@) == in_order(pair_texts(origins@)),
{
    let mut list: Vec<Origin> = Vec::new();
    let mut i: usize = 0;
    while i < origins.len()
        invariant
            i <= origins@.len(),
            origin_texts(list@) == pair_texts(origins@).take(i as int),
        decreases origins@.len() - i,
    {
        let ghost before = origin_texts(list@);
        list.push(Origin { path: origins[i].0.clone(), layer: origins[i].1.clone() });
        i = i + 1;
        assert(origin_texts(list@) =~= before.push((origins@[i - 1].0@, origins@[i - 1].1@)));
        assert(pair_texts(origins@).take(i as int) =~= pair_texts(origins@).take(i - 1).push(
            pair_texts(origins@)[i - 1],
        ));
    }
    assert(pair_texts(origins@).take(origins@.len() as int) =~= pair_texts(origins@));
    let ghost all = list@;
    let r = sorted(list);
    proof {
        let (x, y) = (origin_texts(r@), in_order(pair_texts(origins@)));
        let leq = origin_order();
        same_origins_same_texts(r@, all);
        origin_order_total();
        pair_texts(origins@).lemma_sort_by_ensures(leq);
        assert forall|a: int, b: int| 0 <= a < b < x.len() implies #[trigger] leq(x[a], x[b]) by {
            assert(Origin::rank_le(r@[a], r@[b]));
        }
        assert(vstd::relations::sorted_by(x, leq));
        vstd::seq_lib::lemma_sorted_unique(x, y, leq);
    }
    r
}

// ---------------------------------------------------------------------------
// What paths lead to
// ---------------------------------------------------------------------------

/// How paths are read: a key alone, a key and what stands behind its dot, an array's entry
/// by its number, and a member by its name in quotes.
pub proof fn how_paths_are_read(key: Seq<char>, sub: Seq<char>, index: nat)
    requires
        !key.contains('['),
        !key.contains('.'),
        index <= usize::MAX,
    ensures
        path_shape(key) == Some(PathShape::Plain(key)),
        !sub.contains('[') ==> path_shape(key + seq!['.'] + sub) == Some(PathShape::Sub(key, sub)),
        path_shape(key + "["@ + decimal_of(index) + "]"@) == Some(PathShape::Index(key, index)),
        path_shape(key + seq!['[', '"'] + sub + seq!['"', ']']) == Some(PathShape::Quoted(key, sub)),
        path_shape(key + seq!['['] + sub) is Some ==> sub.len() > 0 && sub.last() == ']',
{
    reveal_strlit("]");
    reveal_strlit("\"");
    crate::text::laws::a_text_is_cut_at_the_first(key, '[', sub);
    crate::text::laws::a_text_is_cut_at_the_first(key, '.', sub);
    if !sub.contains('[') {
        let path = key + seq!['.'] + sub;
        assert forall|i: int| 0 <= i < path.len() implies path[i] != '[' by {
            if i < key.len() {
                assert(key.contains(key[i]));
            } else if i > key.len() {
                assert(sub.contains(sub[i - key.len() - 1]));
            }
        }
        assert(!path.contains('['));
    }
    entry_path_shape(key, index);
    let rest = seq!['"'] + sub + seq!['"', ']'];
    let path = key + seq!['[', '"'] + sub + seq!['"', ']'];
    assert(path =~= key + seq!['['] + rest);
    crate::text::laws::a_text_is_cut_at_the_first(key, '[', rest);
    assert(rest.skip(rest.len() - 1) =~= "]"@);
    let inner = rest.take(rest.len() - 1);
    assert(inner =~= seq!['"'] + sub + seq!['"']);
    assert(inner.take(1) =~= "\""@);
    assert(inner.skip(1) =~= sub + seq!['"']);
    assert(inner.skip(1).skip(inner.skip(1).len() - 1) =~= "\""@);
    assert(inner.skip(1).take(inner.len() - 2) =~= sub);
    if finishes_with(sub, "]"@) {
        assert(sub.skip(sub.len() - 1)[0] == sub.last());
        assert("]"@[0] == ']');
    }
}

/// What paths lead to: a member of the document, a member of that member by either
/// spelling, and an element of it.
pub proof fn what_paths_lead_to(document: Json, key: Seq<char>, sub: Seq<char>, index: nat)
    requires
        !key.contains('['),
        !key.contains('.'),
        index <= usize::MAX,
    ensures
        resolved(document, key) == json_member(document, key),
        json_member(document, key) matches Some(value) ==> {
            &&& !sub.contains('[') ==> resolved(document, key + seq!['.'] + sub) == json_member(value, sub)
            &&& resolved(document, key + "["@ + decimal_of(index) + "]"@) == json_element(value, index)
            &&& resolved(document, key + seq!['[', '"'] + sub + seq!['"', ']']) == json_member(value, sub)
        },
        json_member(document, key) is None ==> {
            &&& !sub.contains('[') ==> resolved(document, key + seq!['.'] + sub) is None
            &&& resolved(document, key + "["@ + decimal_of(index) + "]"@) is None
            &&& resolved(document, key + seq!['[', '"'] + sub + seq!['"', ']']) is None
        },
{
    how_paths_are_read(key, sub, index);
}

/// Origins stand in the order of their paths where those are plain keys, and origins of one
/// path in the order of their layers.
pub proof fn origins_stand_in_the_order_of_their_paths(
    a: Seq<char>,
    b: Seq<char>,
    first: Seq<char>,
    second: Seq<char>,
)
    requires
        !a.contains('[') && !a.contains('.'),
        !b.contains('[') && !b.contains('.'),
    ensures
        text_lt(a, b) ==> origin_le((a, first), (b, second)) && !origin_le((b, second), (a, first)),
        text_lt(first, second) ==> origin_le((a, first), (a, second)) && !origin_le((a, second), (a, first)),
{
    how_paths_are_read(a, Seq::empty(), 0);
    how_paths_are_read(b, Seq::empty(), 0);
    text_irreflexive(a);
    if text_lt(a, b) {
        if text_lt(b, a) {
            text_antisymmetric(a, b);
        }
        text_irreflexive(b);
    }
    if text_lt(first, second) {
        if text_le(second, first) {
            text_antisymmetric(first, second);
        }
        text_irreflexive(first);
    }
}

/// Origins that were put in order are in order.
pub proof fn what_is_put_in_order_is_in_order(origins: Seq<(Seq<char>, Seq<char>)>, i: int, j: int)
    requires
        0 <= i < j < in_order(origins).len(),
    ensures
        origin_le(in_order(origins)[i], in_order(origins)[j]),
{
    origin_order_total();
    origins.lemma_sort_by_ensures(origin_order());
    let f = origin_order();
    assert(vstd::relations::sorted_by(in_order(origins), f));
    assert(f(in_order(origins)[i], in_order(origins)[j]));
}

} // verus!
