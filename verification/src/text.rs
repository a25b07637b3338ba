//! Text as sequences of characters: the string operations the commands need,
//! each with its meaning on `Seq<char>`.
use vstd::prelude::*;

pub mod laws;

verus! {

/// `String::push` appends the one character it is given.
pub assume_specification[ String::push ](s: &mut String, c: char)
    ensures
        final(s)@ == old(s)@.push(c),
;

/// The texts of a list of strings.
pub open spec fn texts(v: Seq<String>) -> Seq<Seq<char>> {
    v.map_values(|s: String| s@)
}

/// The text of an optional string.
pub open spec fn text_opt(v: Option<String>) -> Option<Seq<char>> {
    match v {
        Some(s) => Some(s@),
        None => None,
    }
}

/// The characters of a text, as an indexable list.
pub fn chars_of(s: &str) -> (r: Vec<char>)
    ensures
        r@ == s@,
{
    let mut v: Vec<char> = Vec::new();
    for c in it: s.chars()
        invariant
            it.seq() == s@,
            v@ == s@.take(it.index() as int),
    {
        v.push(c);
    }
    assert(s@.take(s@.len() as int) == s@);
    v
}

/// Whether a character occurs in `s`.
pub fn holds_char(s: &str, c: char) -> (r: bool)
    ensures
        r == s@.contains(c),
{
    let v = chars_of(s);
    let mut i: usize = 0;
    while i < v.len()
        invariant
            v@ == s@,
            i <= v@.len(),
            forall|j: int| 0 <= j < i ==> v@[j] != c,
        decreases v@.len() - i,
    {
        if v[i] == c {
            return true;
        }
        i = i + 1;
    }
    false
}

/// The text spelled by the characters `from..to`.
pub fn text_of(v: &Vec<char>, from: usize, to: usize) -> (r: String)
    requires
        from <= to <= v@.len(),
    ensures
        r@ == v@.subrange(from as int, to as int),
{
    let mut out = String::new();
    let mut i: usize = from;
    while i < to
        invariant
            from <= i <= to <= v@.len(),
            out@ == v@.subrange(from as int, i as int),
        decreases to - i,
    {
        out.push(v[i]);
        i = i + 1;
        assert(out@ == v@.subrange(from as int, i as int));
    }
    out
}

/// An owned copy of a text.
pub fn owned(s: &str) -> (r: String)
    ensures
        r@ == s@,
{
    s.to_owned()
}

/// Whether two texts are the same.
pub fn same(a: &str, b: &str) -> (r: bool)
    ensures
        r == (a@ == b@),
{
    a.to_owned() == b.to_owned()
}

/// Two texts, one after the other.
pub fn cat2(a: &str, b: &str) -> (r: String)
    ensures
        r@ == a@ + b@,
{
    let mut out = a.to_owned();
    out.append(b);
    out
}

/// Three texts, one after the other.
pub fn cat3(a: &str, b: &str, c: &str) -> (r: String)
    ensures
        r@ == a@ + b@ + c@,
{
    let mut out = a.to_owned();
    out.append(b);
    out.append(c);
    out
}

/// Four texts, one after the other.
pub fn cat4(a: &str, b: &str, c: &str, d: &str) -> (r: String)
    ensures
        r@ == a@ + b@ + c@ + d@,
{
    let mut out = a.to_owned();
    out.append(b);
    out.append(c);
    out.append(d);
    out
}

/// Five texts, one after the other.
pub fn cat5(a: &str, b: &str, c: &str, d: &str, e: &str) -> (r: String)
    ensures
        r@ == a@ + b@ + c@ + d@ + e@,
{
    let mut out = a.to_owned();
    out.append(b);
    out.append(c);
    out.append(d);
    out.append(e);
    out
}

/// Whether the list holds this text.
pub fn holds_text(v: &Vec<String>, s: &str) -> (r: bool)
    ensures
        r == texts(v@).contains(s@),
{
    let mut i: usize = 0;
    while i < v.len()
        invariant
            i <= v@.len(),
            forall|j: int| 0 <= j < i ==> texts(v@)[j] != s@,
        decreases v@.len() - i,
    {
        if same(v[i].as_str(), s) {
            assert(texts(v@)[i as int] == s@);
            return true;
        }
        i = i + 1;
    }
    false
}

// ---------------------------------------------------------------------------
// Prefixes, suffixes, occurrences
// ---------------------------------------------------------------------------

/// `s` begins with `p`.
pub open spec fn begins_with(s: Seq<char>, p: Seq<char>) -> bool {
    p.len() <= s.len() && s.take(p.len() as int) == p
}

/// `s` ends with `p`.
pub open spec fn finishes_with(s: Seq<char>, p: Seq<char>) -> bool {
    p.len() <= s.len() && s.skip(s.len() - p.len()) == p
}

/// `p` occurs somewhere in `s`.
pub open spec fn occurs_in(p: Seq<char>, s: Seq<char>) -> bool {
    exists|i: int| 0 <= i && #[trigger] occurs_at(p, s, i)
}

/// `p` occurs in `s` at position `i`.
pub open spec fn occurs_at(p: Seq<char>, s: Seq<char>, i: int) -> bool {
    i + p.len() <= s.len() && s.subrange(i, i + p.len()) == p
}

/// Whether the characters from `at` on start with the characters of `p`.
fn matches_at(v: &Vec<char>, p: &Vec<char>, at: usize) -> (r: bool)
    requires
        at + p@.len() <= v@.len(),
    ensures
        r == (v@.subrange(at as int, at + p@.len()) == p@),
{
    let total: usize = v.len();
    let mut i: usize = 0;
    while i < p.len()
        invariant
            total == v@.len(),
            at + p@.len() <= total,
            i <= p@.len(),
            forall|j: int| 0 <= j < i ==> v@[at + j] == p@[j],
        decreases p@.len() - i,
    {
        if v[at + i] != p[i] {
            assert(v@.subrange(at as int, at + p@.len())[i as int] != p@[i as int]);
            return false;
        }
        i = i + 1;
    }
    assert(v@.subrange(at as int, at + p@.len()) == p@);
    true
}

/// Whether `s` begins with `p`.
pub fn starts_with(s: &str, p: &str) -> (r: bool)
    ensures
        r == begins_with(s@, p@),
{
    let v = chars_of(s);
    let q = chars_of(p);
    if q.len() > v.len() {
        return false;
    }
    matches_at(&v, &q, 0)
}

/// Whether `s` ends with `p`.
pub fn ends_with(s: &str, p: &str) -> (r: bool)
    ensures
        r == finishes_with(s@, p@),
{
    let v = chars_of(s);
    let q = chars_of(p);
    if q.len() > v.len() {
        return false;
    }
    assert(v@.skip(v@.len() - q@.len()) == v@.subrange(v@.len() - q@.len(), v@.len() as int));
    matches_at(&v, &q, v.len() - q.len())
}

/// What follows the prefix `p`, if `s` begins with it.
pub fn strip_prefix(s: &str, p: &str) -> (r: Option<String>)
    ensures
        begins_with(s@, p@) ==> r is Some && r->Some_0@ == s@.skip(p@.len() as int),
        !begins_with(s@, p@) ==> r is None,
{
    let v = chars_of(s);
    let q = chars_of(p);
    if q.len() > v.len() || !matches_at(&v, &q, 0) {
        return None;
    }
    Some(text_of(&v, q.len(), v.len()))
}

/// What precedes the suffix `p`, if `s` ends with it.
pub fn strip_suffix(s: &str, p: &str) -> (r: Option<String>)
    ensures
        finishes_with(s@, p@) ==> r is Some && r->Some_0@ == s@.take(s@.len() - p@.len()),
        !finishes_with(s@, p@) ==> r is None,
{
    if !ends_with(s, p) {
        return None;
    }
    let v = chars_of(s);
    let q = chars_of(p);
    Some(text_of(&v, 0, v.len() - q.len()))
}

/// Whether `p` occurs somewhere in `s`.
pub fn contains_text(s: &str, p: &str) -> (r: bool)
    ensures
        r == occurs_in(p@, s@),
{
    let v = chars_of(s);
    let q = chars_of(p);
    if q.len() > v.len() {
        return false;
    }
    let last: usize = v.len() - q.len();
    let mut i: usize = 0;
    while i <= last
        invariant
            v@ == s@,
            q@ == p@,
            last == v@.len() - q@.len(),
            i <= last + 1,
            forall|j: int| 0 <= j < i ==> !occurs_at(p@, s@, j),
        decreases last + 1 - i,
    {
        if matches_at(&v, &q, i) {
            assert(occurs_at(p@, s@, i as int));
            return true;
        }
        if i == last {
            assert forall|j: int| 0 <= j implies !occurs_at(p@, s@, j) by {}
            return false;
        }
        i = i + 1;
    }
    false
}

// ---------------------------------------------------------------------------
// Splitting and joining
// ---------------------------------------------------------------------------

/// Where `c` first occurs in `s`, or the length of `s`.
pub open spec fn first_at(s: Seq<char>, c: char) -> int
    decreases s.len(),
{
    if s.len() == 0 || s[0] == c {
        0
    } else {
        1 + first_at(s.drop_first(), c)
    }
}

/// The two sides of the first `c` in `s`, if there is one.
pub open spec fn cut_once(s: Seq<char>, c: char) -> Option<(Seq<char>, Seq<char>)> {
    if s.contains(c) {
        Some((s.take(first_at(s, c)), s.skip(first_at(s, c) + 1)))
    } else {
        None
    }
}

/// The first occurrence is the position that has `c` and none before it.
pub proof fn first_at_is(s: Seq<char>, c: char, i: int)
    requires
        0 <= i <= s.len(),
        forall|j: int| 0 <= j < i ==> s[j] != c,
        i < s.len() ==> s[i] == c,
    ensures
        first_at(s, c) == i,
    decreases s.len(),
{
    if i > 0 {
        let t = s.drop_first();
        assert forall|j: int| 0 <= j < i - 1 implies t[j] != c by {
            assert(t[j] == s[j + 1]);
        }
        first_at_is(t, c, i - 1);
    }
}

/// The two sides of the first `c` in `s`, if there is one.
pub fn split_once(s: &str, c: char) -> (r: Option<(String, String)>)
    ensures
        match (r, cut_once(s@, c)) {
            (Some(p), Some(q)) => p.0@ == q.0 && p.1@ == q.1,
            (None, None) => true,
            _ => false,
        },
{
    let v = chars_of(s);
    let mut i: usize = 0;
    while i < v.len()
        invariant
            v@ == s@,
            i <= v@.len(),
            forall|j: int| 0 <= j < i ==> v@[j] != c,
        decreases v@.len() - i,
    {
        if v[i] == c {
            proof {
                first_at_is(s@, c, i as int);
                assert(s@.contains(c));
                assert(s@.take(i as int) == s@.subrange(0, i as int));
                assert(s@.skip(i + 1) == s@.subrange(i + 1, s@.len() as int));
            }
            return Some((text_of(&v, 0, i), text_of(&v, i + 1, v.len())));
        }
        i = i + 1;
    }
    None
}

/// The pieces of `s` between the occurrences of `sep`: one more than there are
/// separators, each without one.
pub open spec fn pieces(s: Seq<char>, sep: char) -> Seq<Seq<char>>
    decreases s.len(),
{
    if s.len() == 0 {
        seq![Seq::<char>::empty()]
    } else {
        let before = pieces(s.drop_last(), sep);
        if s.last() == sep {
            before.push(Seq::<char>::empty())
        } else {
            before.update(before.len() - 1, before.last().push(s.last()))
        }
    }
}

/// The texts of `parts` with `sep` between each two.
pub open spec fn joined(parts: Seq<Seq<char>>, sep: Seq<char>) -> Seq<char>
    decreases parts.len(),
{
    if parts.len() == 0 {
        Seq::empty()
    } else if parts.len() == 1 {
        parts[0]
    } else {
        joined(parts.drop_last(), sep) + sep + parts.last()
    }
}

/// There is always a piece.
pub proof fn pieces_nonempty(s: Seq<char>, sep: char)
    ensures
        pieces(s, sep).len() >= 1,
    decreases s.len(),
{
    if s.len() > 0 {
        pieces_nonempty(s.drop_last(), sep);
    }
}

/// Joining the pieces with the separator gives the text back, and no piece has
/// the separator in it.
pub proof fn pieces_join(s: Seq<char>, sep: char)
    ensures
        joined(pieces(s, sep), seq![sep]) == s,
        forall|i: int| 0 <= i < pieces(s, sep).len() ==> !(#[trigger] pieces(s, sep)[i]).contains(sep),
    decreases s.len(),
{
    pieces_nonempty(s, sep);
    if s.len() > 0 {
        let t = s.drop_last();
        let before = pieces(t, sep);
        pieces_join(t, sep);
        pieces_nonempty(t, sep);
        let now = pieces(s, sep);
        assert(s == t.push(s.last()));
        if s.last() == sep {
            assert(now.drop_last() == before);
            assert(joined(now, seq![sep]) == t + seq![sep] + Seq::<char>::empty());
            assert(joined(now, seq![sep]) == s);
        } else {
            assert(now.drop_last() == before.drop_last());
            if before.len() == 1 {
                assert(joined(now, seq![sep]) == s);
            } else {
                let head = joined(before.drop_last(), seq![sep]);
                assert(joined(now, seq![sep]) == head + seq![sep] + before.last().push(s.last()));
                assert(t == head + seq![sep] + before.last());
                assert(joined(now, seq![sep]) == s);
            }
            assert forall|i: int| 0 <= i < now.len() implies !(#[trigger] now[i]).contains(sep) by {
                if i < now.len() - 1 {
                    assert(now[i] == before[i]);
                } else {
                    assert(!before[before.len() - 1].contains(sep));
                    assert(now[i] == before.last().push(s.last()));
                }
            }
        }
    } else {
        assert(pieces(s, sep).len() == 1);
    }
}

/// The pieces of `s` between the occurrences of `sep`.
pub fn split(s: &str, sep: char) -> (r: Vec<String>)
    ensures
        texts(r@) == pieces(s@, sep),
{
    let v = chars_of(s);
    let mut out: Vec<String> = Vec::new();
    let mut from: usize = 0;
    let mut i: usize = 0;
    proof {
        assert(v@.take(0) == Seq::<char>::empty());
        assert(pieces(v@.take(0), sep) == seq![v@.subrange(0, 0)]);
        assert(texts(out@).push(v@.subrange(0, 0)) == seq![v@.subrange(0, 0)]);
    }
    while i < v.len()
        invariant
            v@ == s@,
            from <= i <= v@.len(),
            pieces(v@.take(i as int), sep) == texts(out@).push(v@.subrange(from as int, i as int)),
        decreases v@.len() - i,
    {
        let ghost before = texts(out@);
        let ghost now = v@.take(i + 1);
        proof {
            assert(now.drop_last() == v@.take(i as int));
            assert(now.last() == v@[i as int]);
        }
        if v[i] == sep {
            let piece = text_of(&v, from, i);
            out.push(piece);
            from = i + 1;
            proof {
                assert(texts(out@) == before.push(piece@));
                assert(v@.subrange(i + 1, i + 1) == Seq::<char>::empty());
            }
        } else {
            proof {
                let prev = before.push(v@.subrange(from as int, i as int));
                assert(v@.subrange(from as int, i + 1) == v@.subrange(from as int, i as int).push(v@[i as int]));
                assert(prev.update(prev.len() - 1, prev.last().push(now.last()))
                    == before.push(v@.subrange(from as int, i + 1)));
            }
        }
        i = i + 1;
    }
    let piece = text_of(&v, from, v.len());
    let ghost before = texts(out@);
    out.push(piece);
    proof {
        assert(v@.take(v@.len() as int) == s@);
        assert(texts(out@) == before.push(piece@));
    }
    out
}

/// The texts of `parts` with `sep` between each two.
pub fn join(parts: &Vec<String>, sep: &str) -> (r: String)
    ensures
        r@ == joined(texts(parts@), sep@),
{
    let mut out = String::new();
    let mut i: usize = 0;
    while i < parts.len()
        invariant
            i <= parts@.len(),
            out@ == joined(texts(parts@).take(i as int), sep@),
        decreases parts@.len() - i,
    {
        proof {
            let now = texts(parts@).take(i + 1);
            assert(now.drop_last() == texts(parts@).take(i as int));
            assert(now.last() == parts@[i as int]@);
        }
        if i > 0 {
            out.append(sep);
        }
        out.append(parts[i].as_str());
        i = i + 1;
        proof {
            if i == 1 {
                assert(out@ == parts@[0]@);
            }
        }
    }
    assert(texts(parts@).take(parts@.len() as int) == texts(parts@));
    out
}

// ---------------------------------------------------------------------------
// White space
// ---------------------------------------------------------------------------

/// The characters with Unicode's `White_Space` property.
pub open spec fn white(c: char) -> bool {
    ||| '\u{9}' <= c <= '\u{d}'
    ||| c == ' '
    ||| c == '\u{85}'
    ||| c == '\u{a0}'
    ||| c == '\u{1680}'
    ||| '\u{2000}' <= c <= '\u{200a}'
    ||| c == '\u{2028}'
    ||| c == '\u{2029}'
    ||| c == '\u{202f}'
    ||| c == '\u{205f}'
    ||| c == '\u{3000}'
}

/// Whether a character is white space.
pub fn is_white(c: char) -> (r: bool)
    ensures
        r == white(c),
{
    ('\u{9}' <= c && c <= '\u{d}') || c == ' ' || c == '\u{85}' || c == '\u{a0}' || c == '\u{1680}'
        || ('\u{2000}' <= c && c <= '\u{200a}') || c == '\u{2028}' || c == '\u{2029}'
        || c == '\u{202f}' || c == '\u{205f}' || c == '\u{3000}'
}

/// `s` without its leading white space.
pub open spec fn trimmed_front(s: Seq<char>) -> Seq<char>
    decreases s.len(),
{
    if s.len() > 0 && white(s[0]) {
        trimmed_front(s.drop_first())
    } else {
        s
    }
}

/// `s` without its trailing white space.
pub open spec fn trimmed_back(s: Seq<char>) -> Seq<char>
    decreases s.len(),
{
    if s.len() > 0 && white(s.last()) {
        trimmed_back(s.drop_last())
    } else {
        s
    }
}

/// `s` without its leading and trailing white space.
pub open spec fn trimmed(s: Seq<char>) -> Seq<char> {
    trimmed_back(trimmed_front(s))
}

/// Dropping white characters from the front up to `i` leaves what follows.
proof fn trimmed_front_from(s: Seq<char>, i: int)
    requires
        0 <= i <= s.len(),
        forall|j: int| 0 <= j < i ==> white(s[j]),
        i < s.len() ==> !white(s[i]),
    ensures
        trimmed_front(s) == s.skip(i),
    decreases i,
{
    if i > 0 {
        let t = s.drop_first();
        assert forall|j: int| 0 <= j < i - 1 implies white(t[j]) by {
            assert(t[j] == s[j + 1]);
        }
        trimmed_front_from(t, i - 1);
        assert(t.skip(i - 1) == s.skip(i));
    } else {
        assert(s.skip(0) == s);
    }
}

/// Dropping white characters from the back down to `i` leaves what precedes.
proof fn trimmed_back_to(s: Seq<char>, i: int)
    requires
        0 <= i <= s.len(),
        forall|j: int| i <= j < s.len() ==> white(s[j]),
        i > 0 ==> !white(s[i - 1]),
    ensures
        trimmed_back(s) == s.take(i),
    decreases s.len() - i,
{
    if i < s.len() {
        let t = s.drop_last();
        trimmed_back_to(t, i);
        assert(t.take(i) == s.take(i));
    } else {
        assert(s.take(i) == s);
    }
}

/// `s` without its leading white space.
pub fn trim_start(s: &str) -> (r: String)
    ensures
        r@ == trimmed_front(s@),
{
    let v = chars_of(s);
    let mut i: usize = 0;
    while i < v.len() && is_white(v[i])
        invariant
            i <= v@.len(),
            forall|j: int| 0 <= j < i ==> white(v@[j]),
        decreases v@.len() - i,
    {
        i = i + 1;
    }
    proof {
        trimmed_front_from(s@, i as int);
        assert(s@.skip(i as int) == v@.subrange(i as int, v@.len() as int));
    }
    text_of(&v, i, v.len())
}

/// `s` without its leading and trailing white space.
pub fn trim(s: &str) -> (r: String)
    ensures
        r@ == trimmed(s@),
{
    let front = trim_start(s);
    let v = chars_of(front.as_str());
    let mut i: usize = v.len();
    while i > 0 && is_white(v[i - 1])
        invariant
            i <= v@.len(),
            forall|j: int| i <= j < v@.len() ==> white(v@[j]),
        decreases i,
    {
        i = i - 1;
    }
    proof {
        trimmed_back_to(v@, i as int);
        assert(v@.take(i as int) == v@.subrange(0, i as int));
    }
    text_of(&v, 0, i)
}

/// `s` without its trailing line feeds.
pub open spec fn without_newlines(s: Seq<char>) -> Seq<char>
    decreases s.len(),
{
    if s.len() > 0 && s.last() == '\n' {
        without_newlines(s.drop_last())
    } else {
        s
    }
}

/// `s` without its trailing line feeds.
pub fn trim_newlines(s: &str) -> (r: String)
    ensures
        r@ == without_newlines(s@),
{
    let v = chars_of(s);
    let mut i: usize = v.len();
    assert(v@.take(v@.len() as int) == s@);
    while i > 0 && v[i - 1] == '\n'
        invariant
            i <= v@.len(),
            without_newlines(s@) == without_newlines(v@.take(i as int)),
        decreases i,
    {
        assert(v@.take(i as int).drop_last() == v@.take(i - 1));
        i = i - 1;
    }
    assert(v@.take(i as int) == v@.subrange(0, i as int));
    text_of(&v, 0, i)
}

/// The first word of `s` and what follows it: everything before the first
/// white character.
pub open spec fn word_end(s: Seq<char>) -> int
    decreases s.len(),
{
    if s.len() == 0 || white(s[0]) {
        0
    } else {
        1 + word_end(s.drop_first())
    }
}

proof fn word_end_in_range(s: Seq<char>)
    ensures
        0 <= word_end(s) <= s.len(),
        s.len() > 0 && !white(s[0]) ==> word_end(s) > 0,
    decreases s.len(),
{
    if s.len() > 0 && !white(s[0]) {
        word_end_in_range(s.drop_first());
    }
}

proof fn word_end_is(s: Seq<char>, i: int)
    requires
        0 <= i <= s.len(),
        forall|j: int| 0 <= j < i ==> !white(s[j]),
        i < s.len() ==> white(s[i]),
    ensures
        word_end(s) == i,
    decreases i,
{
    if i > 0 {
        let t = s.drop_first();
        assert forall|j: int| 0 <= j < i - 1 implies !white(t[j]) by {
            assert(t[j] == s[j + 1]);
        }
        word_end_is(t, i - 1);
    }
}

proof fn trimmed_front_shrinks(s: Seq<char>)
    ensures
        trimmed_front(s).len() <= s.len(),
        trimmed_front(s).len() > 0 ==> !white(trimmed_front(s)[0]),
    decreases s.len(),
{
    if s.len() > 0 && white(s[0]) {
        trimmed_front_shrinks(s.drop_first());
    }
}

/// The maximal runs of characters that are not white space, in order.
pub open spec fn words(s: Seq<char>) -> Seq<Seq<char>>
    decreases s.len(),
    via words_decreases
{
    let t = trimmed_front(s);
    if t.len() == 0 {
        Seq::empty()
    } else {
        seq![t.take(word_end(t))] + words(t.skip(word_end(t)))
    }
}

#[via_fn]
proof fn words_decreases(s: Seq<char>) {
    trimmed_front_shrinks(s);
    word_end_in_range(trimmed_front(s));
}

/// The maximal runs of characters that are not white space, in order.
pub fn split_words(s: &str) -> (r: Vec<String>)
    ensures
        texts(r@) == words(s@),
{
    let v = chars_of(s);
    let mut out: Vec<String> = Vec::new();
    let mut i: usize = 0;
    proof {
        assert(v@.skip(0) == s@);
        assert(texts(out@) + words(v@.skip(0)) == words(s@));
    }
    while i < v.len()
        invariant
            v@ == s@,
            i <= v@.len(),
            texts(out@) + words(v@.skip(i as int)) == words(s@),
        decreases v@.len() - i,
    {
        let mut from: usize = i;
        while from < v.len() && is_white(v[from])
            invariant
                i <= from <= v@.len(),
                forall|j: int| i <= j < from ==> white(v@[j]),
            decreases v@.len() - from,
        {
            from = from + 1;
        }
        let ghost rest = v@.skip(i as int);
        proof {
            assert forall|j: int| 0 <= j < from - i implies white(rest[j]) by {
                assert(rest[j] == v@[i + j]);
            }
            trimmed_front_from(rest, from - i);
            assert(rest.skip(from - i) == v@.skip(from as int));
        }
        let mut to: usize = from;
        while to < v.len() && !is_white(v[to])
            invariant
                from <= to <= v@.len(),
                forall|j: int| from <= j < to ==> !white(v@[j]),
            decreases v@.len() - to,
        {
            to = to + 1;
        }
        let ghost t = v@.skip(from as int);
        proof {
            assert forall|j: int| 0 <= j < to - from implies !white(t[j]) by {
                assert(t[j] == v@[from + j]);
            }
            word_end_is(t, to - from);
            assert(t.skip(to - from) == v@.skip(to as int));
            assert(t.take(to - from) == v@.subrange(from as int, to as int));
        }
        if to > from {
            let ghost before = texts(out@);
            let word = text_of(&v, from, to);
            out.push(word);
            proof {
                assert(texts(out@) == before.push(word@));
                assert(before.push(word@) + words(v@.skip(to as int)) == before + (seq![word@]
                    + words(v@.skip(to as int))));
            }
        } else {
            proof {
                assert(t.len() == 0);
                assert(v@.skip(to as int).len() == 0);
                assert(words(v@.skip(to as int)) == Seq::<Seq<char>>::empty()) by {
                    reveal_with_fuel(trimmed_front, 2);
                }
                assert(words(rest) == Seq::<Seq<char>>::empty());
            }
        }
        i = to;
    }
    proof {
        assert(v@.skip(v@.len() as int).len() == 0);
        assert(words(v@.skip(v@.len() as int)) == Seq::<Seq<char>>::empty());
        assert(texts(out@) + words(v@.skip(v@.len() as int)) == texts(out@));
    }
    out
}

// ---------------------------------------------------------------------------
// Lines
// ---------------------------------------------------------------------------

/// A line without the carriage return that preceded its line feed.
pub open spec fn without_return(s: Seq<char>) -> Seq<char> {
    if s.len() > 0 && s.last() == '\r' {
        s.drop_last()
    } else {
        s
    }
}

/// The lines of `s`: what stands before each line feed, less a carriage return
/// just before it, and what stands after the last one unless that is nothing.
pub open spec fn lines_of(s: Seq<char>) -> Seq<Seq<char>> {
    let parts = pieces(s, '\n');
    let ended = parts.drop_last().map_values(|p: Seq<char>| without_return(p));
    if parts.last().len() == 0 {
        ended
    } else {
        ended.push(parts.last())
    }
}

/// The lines of `s`.
pub fn lines(s: &str) -> (r: Vec<String>)
    ensures
        texts(r@) == lines_of(s@),
{
    let parts = split(s, '\n');
    proof {
        pieces_nonempty(s@, '\n');
        assert(texts(parts@).len() == parts@.len());
    }
    let ghost ended = texts(parts@).drop_last().map_values(|p: Seq<char>| without_return(p));
    let last: usize = parts.len() - 1;
    let mut out: Vec<String> = Vec::new();
    let mut i: usize = 0;
    while i < last
        invariant
            last == parts@.len() - 1,
            i <= last,
            ended == texts(parts@).drop_last().map_values(|p: Seq<char>| without_return(p)),
            texts(out@) == ended.take(i as int),
        decreases last - i,
    {
        let v = chars_of(parts[i].as_str());
        let end: usize = if v.len() > 0 && v[v.len() - 1] == '\r' {
            v.len() - 1
        } else {
            v.len()
        };
        let line = text_of(&v, 0, end);
        let ghost before = texts(out@);
        proof {
            assert(v@ == texts(parts@)[i as int]);
            assert(line@ == without_return(v@));
        }
        out.push(line);
        i = i + 1;
        proof {
            assert(texts(out@) == before.push(line@));
            assert(ended.take(i as int) == before.push(ended[i - 1]));
        }
    }
    assert(ended.take(last as int) == ended);
    let tail = owned(parts[last].as_str());
    assert(texts(parts@).last() == tail@);
    if !tail.as_str().is_empty() {
        let ghost before = texts(out@);
        out.push(tail);
        assert(texts(out@) == before.push(tail@));
    }
    out
}

// ---------------------------------------------------------------------------
// Replacing and padding
// ---------------------------------------------------------------------------

/// `s` with every `c` replaced by `with`.
pub open spec fn replaced(s: Seq<char>, c: char, with: Seq<char>) -> Seq<char>
    decreases s.len(),
{
    if s.len() == 0 {
        Seq::empty()
    } else {
        replaced(s.drop_last(), c, with) + (if s.last() == c {
            with
        } else {
            seq![s.last()]
        })
    }
}

/// `s` with every `c` replaced by `with`.
pub fn replace(s: &str, c: char, with: &str) -> (r: String)
    ensures
        r@ == replaced(s@, c, with@),
{
    let v = chars_of(s);
    let mut out = String::new();
    let mut i: usize = 0;
    while i < v.len()
        invariant
            v@ == s@,
            i <= v@.len(),
            out@ == replaced(v@.take(i as int), c, with@),
        decreases v@.len() - i,
    {
        proof {
            assert(v@.take(i + 1).drop_last() == v@.take(i as int));
            assert(v@.take(i + 1).last() == v@[i as int]);
        }
        if v[i] == c {
            out.append(with);
        } else {
            let ghost before = out@;
            out.push(v[i]);
            assert(out@ == before + seq![v@[i as int]]);
        }
        i = i + 1;
    }
    assert(v@.take(v@.len() as int) == s@);
    out
}

/// `s` followed by as many spaces as it takes to fill `width`.
pub open spec fn padded(s: Seq<char>, width: nat) -> Seq<char> {
    if s.len() >= width {
        s
    } else {
        s + Seq::new((width - s.len()) as nat, |i: int| ' ')
    }
}

/// `s` followed by as many spaces as it takes to fill `width`.
pub fn pad(s: &str, width: usize) -> (r: String)
    ensures
        r@ == padded(s@, width as nat),
{
    let used: usize = s.unicode_len();
    let mut out = owned(s);
    let mut i: usize = used;
    while i < width
        invariant
            used == s@.len(),
            used <= i,
            i <= width || i == used,
            out@ == s@ + Seq::new((i - used) as nat, |j: int| ' '),
        decreases width - i,
    {
        let ghost before = out@;
        out.push(' ');
        i = i + 1;
        assert(Seq::new((i - used) as nat, |j: int| ' ') == Seq::new((i - 1 - used) as nat, |j: int| ' ').push(' '));
        assert(out@ == s@ + Seq::new((i - used) as nat, |j: int| ' '));
    }
    assert(s@ + Seq::new(0, |j: int| ' ') == s@);
    out
}

} // verus!
