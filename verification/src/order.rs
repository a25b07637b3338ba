//! Orderings and sorting.
use vstd::prelude::*;

verus! {

broadcast use vstd::seq_lib::group_to_multiset_ensures;

/// `a` comes before `b` in character order.
pub open spec fn text_lt(a: Seq<char>, b: Seq<char>) -> bool
    decreases a.len(),
{
    if b.len() == 0 {
        false
    } else if a.len() == 0 {
        true
    } else if a[0] != b[0] {
        a[0] < b[0]
    } else {
        text_lt(a.drop_first(), b.drop_first())
    }
}

/// `a` comes before `b` in character order, or is `b`.
pub open spec fn text_le(a: Seq<char>, b: Seq<char>) -> bool {
    a == b || text_lt(a, b)
}

/// Of two texts one comes before the other, or they are the same.
pub proof fn text_total(a: Seq<char>, b: Seq<char>)
    ensures
        text_le(a, b) || text_le(b, a),
    decreases a.len(),
{
    if a.len() > 0 && b.len() > 0 && a[0] == b[0] {
        text_total(a.drop_first(), b.drop_first());
        if a.drop_first() == b.drop_first() {
            assert(a == seq![a[0]] + a.drop_first());
            assert(b == seq![b[0]] + b.drop_first());
        }
    } else if a.len() == 0 && b.len() == 0 {
        assert(a == b);
    }
}

/// Character order is transitive.
pub proof fn text_transitive(a: Seq<char>, b: Seq<char>, c: Seq<char>)
    requires
        text_le(a, b),
        text_le(b, c),
    ensures
        text_le(a, c),
    decreases a.len(),
{
    if a != b && b != c {
        text_lt_transitive(a, b, c);
    }
}

/// Strict character order is transitive.
pub proof fn text_lt_transitive(a: Seq<char>, b: Seq<char>, c: Seq<char>)
    requires
        text_lt(a, b),
        text_lt(b, c),
    ensures
        text_lt(a, c),
    decreases a.len(),
{
    if a.len() > 0 && b.len() > 0 && c.len() > 0 && a[0] == b[0] && b[0] == c[0] {
        text_lt_transitive(a.drop_first(), b.drop_first(), c.drop_first());
    }
}

/// No text comes strictly before itself.
pub proof fn text_irreflexive(a: Seq<char>)
    ensures
        !text_lt(a, a),
    decreases a.len(),
{
    if a.len() > 0 {
        text_irreflexive(a.drop_first());
    }
}

/// Character order is antisymmetric.
pub proof fn text_antisymmetric(a: Seq<char>, b: Seq<char>)
    requires
        text_le(a, b),
        text_le(b, a),
    ensures
        a == b,
{
    if a != b {
        text_lt_transitive(a, b, a);
        text_irreflexive(a);
    }
}

/// Whether `a` comes strictly before `b` in character order.
pub fn text_before(a: &str, b: &str) -> (r: bool)
    ensures
        r == text_lt(a@, b@),
{
    let v = crate::text::chars_of(a);
    let w = crate::text::chars_of(b);
    let mut i: usize = 0;
    assert(v@.skip(0) == v@);
    assert(w@.skip(0) == w@);
    while i < v.len() && i < w.len()
        invariant
            v@ == a@,
            w@ == b@,
            i <= v@.len(),
            i <= w@.len(),
            text_lt(a@, b@) == text_lt(v@.skip(i as int), w@.skip(i as int)),
        decreases v@.len() - i,
    {
        assert(v@.skip(i as int).drop_first() == v@.skip(i + 1));
        assert(w@.skip(i as int).drop_first() == w@.skip(i + 1));
        if v[i] != w[i] {
            return v[i] < w[i];
        }
        i = i + 1;
    }
    i < w.len()
}

/// A type whose values are put in order by a total preorder.
pub trait Ranked: Sized {
    /// `a` may stand before `b`.
    spec fn rank_le(a: Self, b: Self) -> bool;

    proof fn rank_total(a: Self, b: Self)
        ensures
            Self::rank_le(a, b) || Self::rank_le(b, a),
    ;

    proof fn rank_transitive(a: Self, b: Self, c: Self)
        requires
            Self::rank_le(a, b),
            Self::rank_le(b, c),
        ensures
            Self::rank_le(a, c),
    ;

    /// Whether `self` may stand before `other`.
    fn may_precede(&self, other: &Self) -> (r: bool)
        ensures
            r == Self::rank_le(*self, *other),
    ;
}

/// Every value may stand before every later one.
pub open spec fn ascending<T: Ranked>(s: Seq<T>) -> bool {
    forall|i: int, j: int| 0 <= i < j < s.len() ==> T::rank_le(#[trigger] s[i], #[trigger] s[j])
}

/// The same values in order.
pub fn sorted<T: Ranked>(v: Vec<T>) -> (r: Vec<T>)
    ensures
        r@.to_multiset() == v@.to_multiset(),
        ascending(r@),
{
    let mut rest: Vec<T> = v;
    let mut out: Vec<T> = Vec::new();
    assert(rest@.to_multiset().add(out@.to_multiset()) == v@.to_multiset());
    while rest.len() > 0
        invariant
            rest@.to_multiset().add(out@.to_multiset()) == v@.to_multiset(),
            ascending(out@),
        decreases rest@.len(),
    {
        let ghost rest0 = rest@;
        let ghost out0 = out@;
        let x = match rest.pop() {
            Some(x) => x,
            None => {
                return out;
            },
        };
        assert(rest@.push(x) == rest0);
        let mut at: usize = 0;
        while at < out.len() && !x.may_precede(&out[at])
            invariant
                at <= out@.len(),
                forall|j: int| 0 <= j < at ==> !T::rank_le(x, #[trigger] out@[j]),
            decreases out@.len() - at,
        {
            at = at + 1;
        }
        proof {
            assert forall|j: int| at <= j < out0.len() implies T::rank_le(x, #[trigger] out0[j]) by {
                if j > at {
                    T::rank_transitive(x, out0[at as int], out0[j]);
                }
            }
            assert forall|j: int| 0 <= j < at implies T::rank_le(#[trigger] out0[j], x) by {
                T::rank_total(x, out0[j]);
            }
        }
        out.insert(at, x);
        proof {
            vstd::seq_lib::to_multiset_insert(out0, at as int, x);
            assert(rest0.to_multiset() == rest@.to_multiset().insert(x));
            assert(rest@.to_multiset().add(out@.to_multiset()) =~= rest0.to_multiset().add(
                out0.to_multiset(),
            ));
            assert forall|i: int, j: int| 0 <= i < j < out@.len() implies T::rank_le(
                #[trigger] out@[i],
                #[trigger] out@[j],
            ) by {
                if i < at && j > at {
                    assert(out@[i] == out0[i] && out@[j] == out0[j - 1]);
                } else if i == at {
                    assert(out@[j] == out0[j - 1]);
                } else if j == at {
                    assert(out@[i] == out0[i]);
                } else if j < at {
                    assert(out@[i] == out0[i] && out@[j] == out0[j]);
                } else {
                    assert(out@[i] == out0[i - 1] && out@[j] == out0[j - 1]);
                }
            }
        }
    }
    assert(rest@.to_multiset().add(out@.to_multiset()) =~= out@.to_multiset()) by {
        assert(rest@ == Seq::<T>::empty());
        assert(rest@.to_multiset().len() == 0);
    }
    out
}

/// Strings in character order.
impl Ranked for String {
    open spec fn rank_le(a: Self, b: Self) -> bool {
        text_le(a@, b@)
    }

    proof fn rank_total(a: Self, b: Self) {
        text_total(a@, b@);
    }

    proof fn rank_transitive(a: Self, b: Self, c: Self) {
        text_transitive(a@, b@, c@);
    }

    fn may_precede(&self, other: &Self) -> (r: bool) {
        proof {
            text_total(self@, other@);
            if text_lt(other@, self@) && text_le(self@, other@) {
                text_antisymmetric(self@, other@);
                text_irreflexive(self@);
            }
        }
        !text_before(other.as_str(), self.as_str())
    }
}

/// Two texts stand in the order of the first characters in which they differ; and a
/// text stands before every longer one that begins with it.
pub proof fn the_first_difference_decides(
    common: Seq<char>,
    x: char,
    after_x: Seq<char>,
    y: char,
    after_y: Seq<char>,
)
    ensures
        x != y ==> (text_lt(common + seq![x] + after_x, common + seq![y] + after_y) <==> (x as u32) < (y as u32)),
        text_lt(common, common + seq![y] + after_y),
        !text_lt(common + seq![y] + after_y, common),
    decreases common.len(),
{
    let a = common + seq![x] + after_x;
    let b = common + seq![y] + after_y;
    if common.len() > 0 {
        let rest = common.drop_first();
        the_first_difference_decides(rest, x, after_x, y, after_y);
        assert(a.drop_first() =~= rest + seq![x] + after_x);
        assert(b.drop_first() =~= rest + seq![y] + after_y);
        assert(a[0] == common[0] && b[0] == common[0]);
    } else {
        assert(a[0] == x && b[0] == y);
    }
}

} // verus!
